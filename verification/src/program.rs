//! Program resources: one linked program object per `Program` value.
//!
//! A program is created by attaching already-compiled shaders, linking, and —
//! on success — detaching every shader again, so that a shader's own later
//! release cannot corrupt the linked program. The shaders are only aggregated
//! during construction: they stay alive and valid whether or not the link
//! succeeds, and may be released independently afterwards.

use vstd::prelude::*;
use vstd::string::StringExecFns;
use crate::context::{CtxView, DriverVerdict, GlCall, GlContext};
use crate::error::{is_compile_error, is_link_error, is_resource_load, Error};
use crate::shader::Shader;
use crate::stage::{has_suffix, spec_stage_of, ShaderStage};

verus! {

broadcast use vstd::seq_lib::group_seq_properties;

/// A linked program object, alive in the context that created it until
/// released.
pub struct Program {
    id: u32,
}

/// The object ids of a sequence of shaders, in order.
pub open spec fn shader_ids(shaders: Seq<Shader>) -> Seq<u32> {
    shaders.map_values(|s: Shader| s.spec_id())
}

/// Every shader of the sequence is alive in the context state `c`.
pub open spec fn all_live(shaders: Seq<Shader>, c: CtxView) -> bool {
    forall|i: int| 0 <= i < shaders.len() ==> (#[trigger] shaders[i]).live_in(c)
}

/// The attach calls for the given shader ids, in order.
pub open spec fn attach_calls(program: u32, ids: Seq<u32>) -> Seq<GlCall>
    decreases ids.len(),
{
    if ids.len() == 0 {
        Seq::empty()
    } else {
        attach_calls(program, ids.drop_last()).push(
            GlCall::AttachShader { program, shader: ids.last() },
        )
    }
}

/// The detach calls for the given shader ids, in order.
pub open spec fn detach_calls(program: u32, ids: Seq<u32>) -> Seq<GlCall>
    decreases ids.len(),
{
    if ids.len() == 0 {
        Seq::empty()
    } else {
        detach_calls(program, ids.drop_last()).push(
            GlCall::DetachShader { program, shader: ids.last() },
        )
    }
}

/// The calls a successful link issues, in order: program creation, one attach
/// per shader, the link, one detach per shader.
pub open spec fn link_ok_calls(program: u32, ids: Seq<u32>) -> Seq<GlCall> {
    seq![GlCall::CreateProgram { program }] + attach_calls(program, ids) + seq![
        GlCall::LinkProgram { program },
    ] + detach_calls(program, ids)
}

/// The calls a failed link issues, in order: program creation, one attach per
/// shader, the link, then deletion of the object allocated for the attempt.
pub open spec fn link_fail_calls(program: u32, ids: Seq<u32>) -> Seq<GlCall> {
    seq![GlCall::CreateProgram { program }] + attach_calls(program, ids) + seq![
        GlCall::LinkProgram { program },
        GlCall::DeleteProgram { program },
    ]
}

/// The context delta of a successful link of the shaders with ids `ids` that
/// returned the program `p`: exactly one new live program object with nothing
/// left attached to it, every shader still alive, and exactly the calls of
/// the attempt logged.
pub open spec fn link_ok_post(pre: CtxView, post: CtxView, ids: Seq<u32>, p: Program) -> bool {
    &&& !pre.programs.dom().contains(p.spec_id())
    &&& p.live_in(post)
    &&& post.programs == pre.programs.insert(p.spec_id(), Set::<u32>::empty())
    &&& post.shaders == pre.shaders
    &&& post.textures == pre.textures
    &&& post.used_program == pre.used_program
    &&& post.bound_texture == pre.bound_texture
    &&& post.log == pre.log + link_ok_calls(p.spec_id(), ids)
}

/// The context delta of a failed link of the shaders with ids `ids`: no live
/// object gained or lost — the program object created for the attempt was
/// released — every shader still alive, and exactly the calls of the attempt
/// logged.
pub open spec fn link_fail_post(pre: CtxView, post: CtxView, ids: Seq<u32>) -> bool {
    &&& post.programs == pre.programs
    &&& post.shaders == pre.shaders
    &&& post.textures == pre.textures
    &&& post.used_program == pre.used_program
    &&& post.bound_texture == pre.bound_texture
    &&& exists|id: u32| post.log == pre.log + link_fail_calls(id, ids)
}

/// Program construction failed after touching the context: every object
/// created for the attempt has been released again, nothing else changed, and
/// the log grew only by the attempt's calls.
pub open spec fn rolled_back(pre: CtxView, post: CtxView) -> bool {
    &&& post.shaders == pre.shaders
    &&& post.programs == pre.programs
    &&& post.textures == pre.textures
    &&& post.used_program == pre.used_program
    &&& post.bound_texture == pre.bound_texture
    &&& pre.log.is_prefix_of(post.log)
}

/// Program construction from a resource succeeded: exactly one new live
/// program object with nothing attached to it; the two shaders compiled for
/// it were transient and have been released again; nothing else changed.
pub open spec fn built_from_res(pre: CtxView, post: CtxView, p: Program) -> bool {
    &&& !pre.programs.dom().contains(p.spec_id())
    &&& p.live_in(post)
    &&& post.programs == pre.programs.insert(p.spec_id(), Set::<u32>::empty())
    &&& post.shaders == pre.shaders
    &&& post.textures == pre.textures
    &&& post.used_program == pre.used_program
    &&& post.bound_texture == pre.bound_texture
    &&& pre.log.is_prefix_of(post.log)
}

/// Law: a program returned by a successful link can always be made current.
/// Its object is alive in the resulting context — exactly what `set_used`
/// requires — and stays so until it is released.
pub proof fn lemma_linked_program_usable(pre: CtxView, post: CtxView, ids: Seq<u32>, p: Program)
    requires
        link_ok_post(pre, post, ids, p),
    ensures
        p.live_in(post),
{
}

/// Law: a failed link corrupts none of the shaders that were attached for the
/// attempt: every shader alive before the attempt is still alive after it.
pub proof fn lemma_failed_link_keeps_shaders(
    pre: CtxView,
    post: CtxView,
    ids: Seq<u32>,
    s: Shader,
)
    requires
        link_fail_post(pre, post, ids),
        s.live_in(pre),
    ensures
        s.live_in(post),
{
}

impl Program {
    /// The GPU object id this program owns.
    pub closed spec fn spec_id(&self) -> u32 {
        self.id
    }

    /// The program's object is alive in the context state `c`.
    pub open spec fn live_in(&self, c: CtxView) -> bool {
        c.programs.dom().contains(self.spec_id())
    }

    /// The GPU object id this program owns.
    pub fn id(&self) -> (r: u32)
        ensures
            r == self.spec_id(),
    {
        self.id
    }

    /// Links the given compiled shaders into a program. The context creates a
    /// program object, attaches every shader, links, and `verdict` is the
    /// driver's reply. On acceptance every shader is detached again and the
    /// new object is alive and owned by the returned program — a program a
    /// successful link returns can always be made current. On rejection the
    /// error is the info log verbatim, the object created for the attempt has
    /// already been released, and the shaders remain alive and untouched.
    pub fn from_shaders(ctx: &mut GlContext, shaders: &Vec<Shader>, verdict: &DriverVerdict) -> (r:
        Result<Program, String>)
        requires
            old(ctx).wf(),
            old(ctx).can_allocate(1),
            all_live(shaders@, old(ctx)@),
        ensures
            final(ctx).wf(),
            final(ctx).id_bound() == old(ctx).id_bound() + 1,
            all_live(shaders@, final(ctx)@),
            verdict.accepted ==> (r matches Ok(p) && link_ok_post(
                old(ctx)@,
                final(ctx)@,
                shader_ids(shaders@),
                p,
            )),
            !verdict.accepted ==> (r matches Err(m) && m@ == verdict.info_log@ && link_fail_post(
                old(ctx)@,
                final(ctx)@,
                shader_ids(shaders@),
            )),
    {
        let ghost ids = shader_ids(shaders@);
        let id = ctx.create_program();
        proof {
            assert(ids.take(0).to_set() =~= Set::<u32>::empty());
            assert(ctx@.programs =~= old(ctx)@.programs.insert(id, ids.take(0).to_set()));
            assert(attach_calls(id, ids.take(0)) =~= Seq::<GlCall>::empty());
            assert(ctx@.log =~= old(ctx)@.log + seq![GlCall::CreateProgram { program: id }]
                + attach_calls(id, ids.take(0)));
        }
        let mut i: usize = 0;
        while i < shaders.len()
            invariant
                ctx.wf(),
                i <= shaders@.len(),
                ids == shader_ids(shaders@),
                all_live(shaders@, old(ctx)@),
                !old(ctx)@.programs.dom().contains(id),
                ctx@.shaders == old(ctx)@.shaders,
                ctx@.programs == old(ctx)@.programs.insert(id, ids.take(i as int).to_set()),
                ctx@.textures == old(ctx)@.textures,
                ctx@.used_program == old(ctx)@.used_program,
                ctx@.bound_texture == old(ctx)@.bound_texture,
                ctx@.log == old(ctx)@.log + seq![GlCall::CreateProgram { program: id }]
                    + attach_calls(id, ids.take(i as int)),
                ctx.id_bound() == old(ctx).id_bound() + 1,
            decreases shaders@.len() - i,
        {
            proof {
                assert(shaders@[i as int].live_in(old(ctx)@));
            }
            let sid = shaders[i].id();
            ctx.attach_shader(id, sid);
            proof {
                let j = i as int;
                assert(ids.take(j + 1).drop_last() =~= ids.take(j));
                assert(ids.take(j + 1) =~= ids.take(j).push(sid));
                assert(ids.take(j).to_set().insert(sid) =~= ids.take(j + 1).to_set());
                assert(old(ctx)@.programs.insert(id, ids.take(j).to_set()).insert(
                    id,
                    ids.take(j + 1).to_set(),
                ) =~= old(ctx)@.programs.insert(id, ids.take(j + 1).to_set()));
                assert(attach_calls(id, ids.take(j + 1)) =~= attach_calls(id, ids.take(j)).push(
                    GlCall::AttachShader { program: id, shader: sid },
                ));
                assert(ctx@.log =~= old(ctx)@.log + seq![GlCall::CreateProgram { program: id }]
                    + attach_calls(id, ids.take(j + 1)));
            }
            i = i + 1;
        }
        proof {
            assert(ids.take(shaders@.len() as int) =~= ids);
        }
        ctx.link_program(id);
        if !verdict.accepted {
            ctx.delete_program(id);
            proof {
                assert(ctx@.programs =~= old(ctx)@.programs);
                assert(ctx@.log =~= old(ctx)@.log + link_fail_calls(id, ids));
            }
            return Err(verdict.info_log.clone());
        }
        let ghost linked_log = ctx@.log;
        proof {
            assert(ids.to_set().difference(ids.take(0).to_set()) =~= ids.to_set());
            assert(ctx@.programs =~= old(ctx)@.programs.insert(
                id,
                ids.to_set().difference(ids.take(0).to_set()),
            ));
            assert(detach_calls(id, ids.take(0)) =~= Seq::<GlCall>::empty());
            assert(ctx@.log =~= linked_log + detach_calls(id, ids.take(0)));
        }
        let mut k: usize = 0;
        while k < shaders.len()
            invariant
                ctx.wf(),
                k <= shaders@.len(),
                ids == shader_ids(shaders@),
                all_live(shaders@, old(ctx)@),
                !old(ctx)@.programs.dom().contains(id),
                ctx@.shaders == old(ctx)@.shaders,
                ctx@.programs == old(ctx)@.programs.insert(
                    id,
                    ids.to_set().difference(ids.take(k as int).to_set()),
                ),
                ctx@.textures == old(ctx)@.textures,
                ctx@.used_program == old(ctx)@.used_program,
                ctx@.bound_texture == old(ctx)@.bound_texture,
                linked_log == old(ctx)@.log + seq![GlCall::CreateProgram { program: id }]
                    + attach_calls(id, ids) + seq![GlCall::LinkProgram { program: id }],
                ctx@.log == linked_log + detach_calls(id, ids.take(k as int)),
                ctx.id_bound() == old(ctx).id_bound() + 1,
            decreases shaders@.len() - k,
        {
            let sid = shaders[k].id();
            ctx.detach_shader(id, sid);
            proof {
                let j = k as int;
                assert(ids.take(j + 1).drop_last() =~= ids.take(j));
                assert(ids.take(j + 1) =~= ids.take(j).push(sid));
                assert(ids.to_set().difference(ids.take(j).to_set()).remove(sid)
                    =~= ids.to_set().difference(ids.take(j + 1).to_set()));
                assert(old(ctx)@.programs.insert(
                    id,
                    ids.to_set().difference(ids.take(j).to_set()),
                ).insert(id, ids.to_set().difference(ids.take(j + 1).to_set()))
                    =~= old(ctx)@.programs.insert(
                    id,
                    ids.to_set().difference(ids.take(j + 1).to_set()),
                ));
                assert(detach_calls(id, ids.take(j + 1)) =~= detach_calls(id, ids.take(j)).push(
                    GlCall::DetachShader { program: id, shader: sid },
                ));
                assert(ctx@.log =~= linked_log + detach_calls(id, ids.take(j + 1)));
            }
            k = k + 1;
        }
        proof {
            assert(ids.take(shaders@.len() as int) =~= ids);
            assert(ids.to_set().difference(ids.to_set()) =~= Set::<u32>::empty());
            assert(ctx@.programs =~= old(ctx)@.programs.insert(id, Set::<u32>::empty()));
            assert(ctx@.log =~= old(ctx)@.log + link_ok_calls(id, ids));
        }
        Ok(Program { id })
    }

    /// Builds a program from a pair of named shader resources: `name.vert`
    /// compiled as the vertex stage and `name.frag` as the fragment stage,
    /// then linked. The first failure wins: a loader failure or rejected
    /// compilation of the vertex shader is reported before the fragment
    /// shader is even considered, and a link failure is reported as a link
    /// error carrying the driver's log. Whatever the outcome, the two
    /// shaders are only transient: every object created for a failed attempt
    /// has been released when the error returns, and a successful build
    /// leaves exactly the new program object alive.
    pub fn from_res(
        ctx: &mut GlContext,
        name: &str,
        vert_loaded: &Result<String, String>,
        frag_loaded: &Result<String, String>,
        vert_verdict: &DriverVerdict,
        frag_verdict: &DriverVerdict,
        link_verdict: &DriverVerdict,
    ) -> (r: Result<Program, Error>)
        requires
            old(ctx).wf(),
            old(ctx).can_allocate(3),
        ensures
            final(ctx).wf(),
            old(ctx).id_bound() <= final(ctx).id_bound() <= old(ctx).id_bound() + 3,
            vert_loaded matches Err(le) ==> (r matches Err(e) && is_resource_load(
                e,
                name@ + ".vert"@,
                le@,
            ) && final(ctx)@ == old(ctx)@),
            (vert_loaded is Ok && !vert_verdict.accepted) ==> (r matches Err(e)
                && is_compile_error(e, name@ + ".vert"@, vert_verdict.info_log@) && rolled_back(
                old(ctx)@,
                final(ctx)@,
            )),
            (vert_loaded is Ok && vert_verdict.accepted) ==> {
                &&& frag_loaded matches Err(le) ==> (r matches Err(e) && is_resource_load(
                    e,
                    name@ + ".frag"@,
                    le@,
                ) && rolled_back(old(ctx)@, final(ctx)@))
                &&& (frag_loaded is Ok && !frag_verdict.accepted) ==> (r matches Err(e)
                    && is_compile_error(e, name@ + ".frag"@, frag_verdict.info_log@)
                    && rolled_back(old(ctx)@, final(ctx)@))
                &&& (frag_loaded is Ok && frag_verdict.accepted && !link_verdict.accepted) ==> (
                r matches Err(e) && is_link_error(e, name@, link_verdict.info_log@) && rolled_back(
                    old(ctx)@,
                    final(ctx)@,
                ))
                &&& (frag_loaded is Ok && frag_verdict.accepted && link_verdict.accepted) ==> (
                r matches Ok(p) && built_from_res(old(ctx)@, final(ctx)@, p))
            },
    {
        let mut vert_name = name.to_owned();
        vert_name.append(".vert");
        let mut frag_name = name.to_owned();
        frag_name.append(".frag");
        proof {
            reveal_strlit(".vert");
            reveal_strlit(".frag");
            let n = name@;
            let v = ".vert"@;
            let f = ".frag"@;
            assert((n + v).subrange(n.len() as int, (n.len() + v.len()) as int) =~= v);
            assert(spec_stage_of(vert_name@) == Some(ShaderStage::Vertex));
            assert(!has_suffix(n + f, v)) by {
                if has_suffix(n + f, v) {
                    assert((n + f).subrange(n.len() as int, (n.len() + 5) as int) =~= f);
                    assert((n + f).subrange(n.len() as int, (n.len() + 5) as int) == v);
                    assert(f[4] == v[4]);
                    assert(false);
                }
            }
            assert((n + f).subrange(n.len() as int, (n.len() + f.len()) as int) =~= f);
            assert(spec_stage_of(frag_name@) == Some(ShaderStage::Fragment));
        }
        let vert = match Shader::from_res(ctx, vert_loaded, vert_name.as_str(), vert_verdict) {
            Ok(shader) => shader,
            Err(e) => {
                proof {
                    if vert_loaded is Ok {
                        assert(ctx@.log.subrange(0, old(ctx)@.log.len() as int) =~= old(ctx)@.log);
                    }
                }
                return Err(e);
            },
        };
        let ghost with_vert = ctx@;
        let frag = match Shader::from_res(ctx, frag_loaded, frag_name.as_str(), frag_verdict) {
            Ok(shader) => shader,
            Err(e) => {
                vert.release(ctx);
                proof {
                    assert(ctx@.shaders =~= old(ctx)@.shaders);
                    assert(ctx@.log.subrange(0, old(ctx)@.log.len() as int) =~= old(ctx)@.log);
                }
                return Err(e);
            },
        };
        let mut shaders: Vec<Shader> = Vec::new();
        shaders.push(vert);
        shaders.push(frag);
        let linked = Program::from_shaders(ctx, &shaders, link_verdict);
        let frag_back = shaders.pop().unwrap();
        let vert_back = shaders.pop().unwrap();
        proof {
            assert(frag_back == frag);
            assert(vert_back == vert);
        }
        frag_back.release(ctx);
        vert_back.release(ctx);
        proof {
            assert(ctx@.shaders =~= old(ctx)@.shaders);
            assert(ctx@.log.subrange(0, old(ctx)@.log.len() as int) =~= old(ctx)@.log);
        }
        match linked {
            Ok(program) => Ok(program),
            Err(message) => Err(Error::LinkError { name: name.to_owned(), message }),
        }
    }

    /// Makes this program the context's current program. The program must
    /// still be alive; nothing else about the context changes.
    pub fn set_used(&self, ctx: &mut GlContext)
        requires
            old(ctx).wf(),
            self.live_in(old(ctx)@),
        ensures
            final(ctx).wf(),
            final(ctx)@.used_program == self.spec_id(),
            final(ctx)@.shaders == old(ctx)@.shaders,
            final(ctx)@.programs == old(ctx)@.programs,
            final(ctx)@.textures == old(ctx)@.textures,
            final(ctx)@.bound_texture == old(ctx)@.bound_texture,
            final(ctx)@.log == old(ctx)@.log.push(
                GlCall::UseProgram { program: self.spec_id() },
            ),
            final(ctx).id_bound() == old(ctx).id_bound(),
    {
        ctx.use_program(self.id);
    }

    /// Releases the program's GPU object. Taking the program by value, this
    /// can happen at most once. Releasing the current program leaves no
    /// program current.
    pub fn release(self, ctx: &mut GlContext)
        requires
            old(ctx).wf(),
            self.live_in(old(ctx)@),
        ensures
            final(ctx).wf(),
            final(ctx)@.programs == old(ctx)@.programs.remove(self.spec_id()),
            final(ctx)@.shaders == old(ctx)@.shaders,
            final(ctx)@.textures == old(ctx)@.textures,
            final(ctx)@.used_program == (
                if old(ctx)@.used_program == self.spec_id() {
                    0u32
                } else {
                    old(ctx)@.used_program
                }
            ),
            final(ctx)@.bound_texture == old(ctx)@.bound_texture,
            final(ctx)@.log == old(ctx)@.log.push(
                GlCall::DeleteProgram { program: self.spec_id() },
            ),
            final(ctx).id_bound() == old(ctx).id_bound(),
    {
        ctx.delete_program(self.id);
    }
}

} // verus!
