//! Shader resources: one compiled shader object per `Shader` value.
//!
//! A shader is created by compilation: the context allocates an object,
//! receives the source, compiles it, and the driver's verdict decides the
//! outcome. A rejected compilation returns the driver's info log verbatim,
//! and the object allocated for the attempt is released before the error
//! returns, so a failed construction leaks nothing. A live shader is
//! released exactly once, by `release`, which consumes it.

use vstd::prelude::*;
use crate::context::{CtxView, DriverVerdict, GlCall, GlContext};
use crate::error::{is_compile_error, is_resource_load, is_unknown_stage, Error};
use crate::stage::{spec_stage_of, stage_for_name, ShaderStage};

verus! {

/// A compiled shader object of one pipeline stage, alive in the context that
/// created it until released.
pub struct Shader {
    id: u32,
    stage: ShaderStage,
}

/// The calls a successful compilation issues, in order: object creation,
/// source submission, compilation.
pub open spec fn compile_ok_calls(kind: ShaderStage, source: Seq<char>, id: u32) -> Seq<GlCall> {
    seq![
        GlCall::CreateShader { stage: kind },
        GlCall::ShaderSource { shader: id, source },
        GlCall::CompileShader { shader: id },
    ]
}

/// The calls a failed compilation issues, in order: the three compilation
/// calls, then deletion of the object allocated for the attempt.
pub open spec fn compile_fail_calls(kind: ShaderStage, source: Seq<char>, id: u32) -> Seq<GlCall> {
    compile_ok_calls(kind, source, id).push(GlCall::DeleteShader { shader: id })
}

/// The context delta of a successful compilation of `source` for `kind`
/// that returned the shader `s`: exactly one new live shader object, and
/// exactly the three compilation calls logged.
pub open spec fn compile_ok_post(
    pre: CtxView,
    post: CtxView,
    kind: ShaderStage,
    source: Seq<char>,
    s: Shader,
) -> bool {
    &&& s.spec_stage() == kind
    &&& !pre.shaders.contains(s.spec_id())
    &&& s.live_in(post)
    &&& post.shaders == pre.shaders.insert(s.spec_id())
    &&& post.programs == pre.programs
    &&& post.textures == pre.textures
    &&& post.used_program == pre.used_program
    &&& post.bound_texture == pre.bound_texture
    &&& post.log == pre.log + compile_ok_calls(kind, source, s.spec_id())
}

/// The context delta of a failed compilation of `source` for `kind`: no live
/// object gained or lost — the object created for the attempt was released —
/// and exactly the four calls of the attempt logged.
pub open spec fn compile_fail_post(
    pre: CtxView,
    post: CtxView,
    kind: ShaderStage,
    source: Seq<char>,
) -> bool {
    &&& post.shaders == pre.shaders
    &&& post.programs == pre.programs
    &&& post.textures == pre.textures
    &&& post.used_program == pre.used_program
    &&& post.bound_texture == pre.bound_texture
    &&& exists|id: u32| post.log == pre.log + compile_fail_calls(kind, source, id)
}

impl Shader {
    /// The GPU object id this shader owns.
    pub closed spec fn spec_id(&self) -> u32 {
        self.id
    }

    /// The pipeline stage this shader was compiled for.
    pub closed spec fn spec_stage(&self) -> ShaderStage {
        self.stage
    }

    /// The shader's object is alive in the context state `c`.
    pub open spec fn live_in(&self, c: CtxView) -> bool {
        c.shaders.contains(self.spec_id())
    }

    /// The GPU object id this shader owns.
    pub fn id(&self) -> (r: u32)
        ensures
            r == self.spec_id(),
    {
        self.id
    }

    /// The pipeline stage this shader was compiled for.
    pub fn stage(&self) -> (k: ShaderStage)
        ensures
            k == self.spec_stage(),
    {
        self.stage
    }

    /// Compiles `source` as a shader of the given stage. The context creates
    /// an object, receives the source and compiles it; `verdict` is the
    /// driver's reply. On acceptance the new object is alive and owned by the
    /// returned shader; on rejection the error is the info log verbatim and
    /// the object created for the attempt has already been released.
    pub fn from_source(
        ctx: &mut GlContext,
        source: &str,
        kind: ShaderStage,
        verdict: &DriverVerdict,
    ) -> (r: Result<Shader, String>)
        requires
            old(ctx).wf(),
            old(ctx).can_allocate(1),
        ensures
            final(ctx).wf(),
            final(ctx).id_bound() == old(ctx).id_bound() + 1,
            verdict.accepted ==> (r matches Ok(s) && compile_ok_post(
                old(ctx)@,
                final(ctx)@,
                kind,
                source@,
                s,
            )),
            !verdict.accepted ==> (r matches Err(m) && m@ == verdict.info_log@
                && compile_fail_post(old(ctx)@, final(ctx)@, kind, source@)),
    {
        let id = ctx.create_shader(kind);
        ctx.submit_source(id, source);
        ctx.compile_shader(id);
        if !verdict.accepted {
            ctx.delete_shader(id);
            proof {
                assert(ctx@.shaders =~= old(ctx)@.shaders);
                assert(ctx@.log =~= old(ctx)@.log + compile_fail_calls(kind, source@, id));
            }
            return Err(verdict.info_log.clone());
        }
        proof {
            assert(ctx@.log =~= old(ctx)@.log + compile_ok_calls(kind, source@, id));
        }
        Ok(Shader { id, stage: kind })
    }

    /// Compiles `source` as a vertex shader.
    pub fn from_vert_source(ctx: &mut GlContext, source: &str, verdict: &DriverVerdict) -> (r:
        Result<Shader, String>)
        requires
            old(ctx).wf(),
            old(ctx).can_allocate(1),
        ensures
            final(ctx).wf(),
            final(ctx).id_bound() == old(ctx).id_bound() + 1,
            verdict.accepted ==> (r matches Ok(s) && compile_ok_post(
                old(ctx)@,
                final(ctx)@,
                ShaderStage::Vertex,
                source@,
                s,
            )),
            !verdict.accepted ==> (r matches Err(m) && m@ == verdict.info_log@
                && compile_fail_post(old(ctx)@, final(ctx)@, ShaderStage::Vertex, source@)),
    {
        Shader::from_source(ctx, source, ShaderStage::Vertex, verdict)
    }

    /// Compiles `source` as a fragment shader.
    pub fn from_frag_source(ctx: &mut GlContext, source: &str, verdict: &DriverVerdict) -> (r:
        Result<Shader, String>)
        requires
            old(ctx).wf(),
            old(ctx).can_allocate(1),
        ensures
            final(ctx).wf(),
            final(ctx).id_bound() == old(ctx).id_bound() + 1,
            verdict.accepted ==> (r matches Ok(s) && compile_ok_post(
                old(ctx)@,
                final(ctx)@,
                ShaderStage::Fragment,
                source@,
                s,
            )),
            !verdict.accepted ==> (r matches Err(m) && m@ == verdict.info_log@
                && compile_fail_post(old(ctx)@, final(ctx)@, ShaderStage::Fragment, source@)),
    {
        Shader::from_source(ctx, source, ShaderStage::Fragment, verdict)
    }

    /// Builds a shader from a named resource. The stage comes from the name's
    /// suffix; an unrecognized suffix fails before anything touches the
    /// context. `loaded` is the resource loader's reply for `name`, and
    /// `verdict` the driver's reply to the compilation.
    pub fn from_res(
        ctx: &mut GlContext,
        loaded: &Result<String, String>,
        name: &str,
        verdict: &DriverVerdict,
    ) -> (r: Result<Shader, Error>)
        requires
            old(ctx).wf(),
            old(ctx).can_allocate(1),
        ensures
            final(ctx).wf(),
            old(ctx).id_bound() <= final(ctx).id_bound() <= old(ctx).id_bound() + 1,
            spec_stage_of(name@) is None ==> (r matches Err(e) && is_unknown_stage(e, name@)
                && final(ctx)@ == old(ctx)@ && final(ctx).id_bound() == old(ctx).id_bound()),
            loaded matches Err(le) ==> (spec_stage_of(name@) is Some ==> (r matches Err(e)
                && is_resource_load(e, name@, le@) && final(ctx)@ == old(ctx)@
                && final(ctx).id_bound() == old(ctx).id_bound())),
            loaded matches Ok(src) ==> (spec_stage_of(name@) matches Some(kind) ==> {
                &&& verdict.accepted ==> (r matches Ok(s) && compile_ok_post(
                    old(ctx)@,
                    final(ctx)@,
                    kind,
                    src@,
                    s,
                ))
                &&& !verdict.accepted ==> (r matches Err(e) && is_compile_error(
                    e,
                    name@,
                    verdict.info_log@,
                ) && compile_fail_post(old(ctx)@, final(ctx)@, kind, src@))
            }),
    {
        let kind = match stage_for_name(name) {
            Some(kind) => kind,
            None => {
                return Err(
                    Error::CanNotDetermineShaderTypeForResource { name: name.to_owned() },
                );
            },
        };
        let source = match loaded {
            Ok(source) => source,
            Err(cause) => {
                return Err(Error::ResourceLoad { name: name.to_owned(), inner: cause.clone() });
            },
        };
        match Shader::from_source(ctx, source.as_str(), kind, verdict) {
            Ok(shader) => Ok(shader),
            Err(message) => Err(Error::CompileError { name: name.to_owned(), message }),
        }
    }

    /// Releases the shader's GPU object. Taking the shader by value, this can
    /// happen at most once; its precondition makes it safe even for a shader
    /// whose program has long been linked.
    pub fn release(self, ctx: &mut GlContext)
        requires
            old(ctx).wf(),
            self.live_in(old(ctx)@),
        ensures
            final(ctx).wf(),
            final(ctx)@.shaders == old(ctx)@.shaders.remove(self.spec_id()),
            final(ctx)@.programs == old(ctx)@.programs,
            final(ctx)@.textures == old(ctx)@.textures,
            final(ctx)@.used_program == old(ctx)@.used_program,
            final(ctx)@.bound_texture == old(ctx)@.bound_texture,
            final(ctx)@.log == old(ctx)@.log.push(GlCall::DeleteShader { shader: self.spec_id() }),
            final(ctx).id_bound() == old(ctx).id_bound(),
    {
        ctx.delete_shader(self.id);
    }
}

} // verus!
