//! The graphics-context ledger.
//!
//! Every GPU resource is created and destroyed through one shared context.
//! `GlContext` is the library's model of that context: it tracks which shader,
//! program and texture objects are alive, what is attached to each program,
//! which program is current, which texture is bound, and — in a ghost log —
//! every call issued, in order. Resource objects must not outlive the context
//! they were created from; callers sequence the context's own teardown after
//! every resource derived from it has been released.

use vstd::prelude::*;
use vstd::pervasive::VecAdditionalExecFns;
use crate::params::{MagFilter, MinFilter, TexParams, WrapMode};
use crate::stage::ShaderStage;

verus! {

broadcast use vstd::seq_lib::lemma_seq_contains_after_push;

/// Removing the entry at `i` from a duplicate-free sequence removes exactly
/// that value from the set of entries.
proof fn lemma_remove_entry(s: Seq<u32>, i: int)
    requires
        0 <= i < s.len(),
        s.no_duplicates(),
    ensures
        s.remove(i).no_duplicates(),
        forall|x: u32| #[trigger] s.remove(i).contains(x) <==> s.contains(x) && x != s[i],
{
    s.remove_ensures(i);
    assert forall|x: u32| #[trigger] s.remove(i).contains(x) implies s.contains(x) && x != s[i] by {
        let k = choose|k: int| 0 <= k < s.remove(i).len() && s.remove(i)[k] == x;
        if k < i {
            assert(s[k] == x);
        } else {
            assert(s[k + 1] == x);
        }
    }
    assert forall|x: u32| s.contains(x) && x != s[i] implies #[trigger] s.remove(i).contains(x) by {
        let k = choose|k: int| 0 <= k < s.len() && s[k] == x;
        if k < i {
            assert(s.remove(i)[k] == x);
        } else {
            assert(s.remove(i)[k - 1] == x);
        }
    }
    assert forall|a: int, b: int|
        0 <= a < s.remove(i).len() && 0 <= b < s.remove(i).len() && a != b implies s.remove(i)[a]
        != s.remove(i)[b] by {
        let a2 = if a < i { a } else { a + 1 };
        let b2 = if b < i { b } else { b + 1 };
        assert(s.remove(i)[a] == s[a2]);
        assert(s.remove(i)[b] == s[b2]);
    }
}

/// One call issued on the graphics context, as the ledger's log records it.
pub ghost enum GlCall {
    CreateShader { stage: ShaderStage },
    ShaderSource { shader: u32, source: Seq<char> },
    CompileShader { shader: u32 },
    DeleteShader { shader: u32 },
    CreateProgram { program: u32 },
    AttachShader { program: u32, shader: u32 },
    LinkProgram { program: u32 },
    DetachShader { program: u32, shader: u32 },
    DeleteProgram { program: u32 },
    UseProgram { program: u32 },
    GenTexture { texture: u32 },
    BindTexture { texture: u32 },
    SetWrapS { texture: u32, mode: WrapMode },
    SetWrapT { texture: u32, mode: WrapMode },
    SetMinFilter { texture: u32, filter: MinFilter },
    SetMagFilter { texture: u32, filter: MagFilter },
    TexImage2D { texture: u32, width: u32, height: u32, pixels: Seq<u8> },
    GenerateMipmap { texture: u32 },
    DeleteTexture { texture: u32 },
}

/// The base-level image uploaded to a texture object.
pub ghost struct ImageData {
    pub width: u32,
    pub height: u32,
    pub pixels: Seq<u8>,
}

/// Everything the ledger knows of one live texture object.
pub ghost struct TexInfo {
    /// Its sampling configuration.
    pub params: TexParams,
    /// Its base-level image, once one has been uploaded.
    pub image: Option<ImageData>,
    /// Whether a mipmap chain has been generated from the base level.
    pub mipmapped: bool,
}

/// The abstract state of the context: the ledger as contracts speak of it.
#[verifier::ext_equal]
pub ghost struct CtxView {
    /// The live shader object ids.
    pub shaders: Set<u32>,
    /// The live program object ids, each with the shader ids attached to it.
    pub programs: Map<u32, Set<u32>>,
    /// The live texture object ids, each with what is known of it.
    pub textures: Map<u32, TexInfo>,
    /// The currently used program id; 0 when none is current.
    pub used_program: u32,
    /// The currently bound texture id; 0 when none is bound.
    pub bound_texture: u32,
    /// Every call issued on the context, in order.
    pub log: Seq<GlCall>,
}

impl CtxView {
    /// The live objects and current bindings of the two states agree; only
    /// the logs may differ.
    pub open spec fn same_objects(self, other: CtxView) -> bool {
        &&& self.shaders == other.shaders
        &&& self.programs == other.programs
        &&& self.textures == other.textures
        &&& self.used_program == other.used_program
        &&& self.bound_texture == other.bound_texture
    }
}

/// The driver's reply to a compile or link request: the status flag and the
/// info log, exactly as the context reported them.
pub struct DriverVerdict {
    /// Whether the status query reported success.
    pub accepted: bool,
    /// The info log the context reported, verbatim.
    pub info_log: String,
}

struct TextureRecord {
    id: u32,
    params: TexParams,
}

/// The shared graphics-context handle: a ledger of the GPU objects created
/// through it.
pub struct GlContext {
    next_id: u32,
    shaders: Vec<u32>,
    programs: Vec<u32>,
    textures: Vec<TextureRecord>,
    used_program: u32,
    bound_texture: u32,
    shader_set: Ghost<Set<u32>>,
    attach_sets: Ghost<Map<u32, Set<u32>>>,
    tex_infos: Ghost<Map<u32, TexInfo>>,
    calls: Ghost<Seq<GlCall>>,
}

impl View for GlContext {
    type V = CtxView;

    closed spec fn view(&self) -> CtxView {
        CtxView {
            shaders: self.shader_set@,
            programs: self.attach_sets@,
            textures: self.tex_infos@,
            used_program: self.used_program,
            bound_texture: self.bound_texture,
            log: self.calls@,
        }
    }
}

impl GlContext {
    /// The least object id the context has never handed out.
    pub closed spec fn id_bound(&self) -> u32 {
        self.next_id
    }

    /// The context can still hand out `n` fresh object ids.
    pub open spec fn can_allocate(&self, n: nat) -> bool {
        self.id_bound() + n <= u32::MAX
    }

    /// The ledger is well formed: ids are nonzero, below the allocation
    /// bound and duplicate-free; the ghost maps mirror the records; and the
    /// current program and bound texture are live or absent.
    pub closed spec fn wf(&self) -> bool {
        &&& self.next_id >= 1
        &&& self.shaders@.no_duplicates()
        &&& forall|i: int|
            0 <= i < self.shaders@.len() ==> 0 < #[trigger] self.shaders@[i] < self.next_id
        &&& forall|x: u32| self.shader_set@.contains(x) <==> self.shaders@.contains(x)
        &&& self.programs@.no_duplicates()
        &&& forall|i: int|
            0 <= i < self.programs@.len() ==> 0 < #[trigger] self.programs@[i] < self.next_id
        &&& forall|x: u32| self.attach_sets@.dom().contains(x) <==> self.programs@.contains(x)
        &&& forall|i: int, j: int|
            0 <= i < j < self.textures@.len() ==> (#[trigger] self.textures@[i]).id
                != (#[trigger] self.textures@[j]).id
        &&& forall|i: int|
            0 <= i < self.textures@.len() ==> 0 < (#[trigger] self.textures@[i]).id
                < self.next_id
        &&& forall|x: u32|
            #[trigger] self.tex_infos@.dom().contains(x) <==> exists|i: int|
                0 <= i < self.textures@.len() && (#[trigger] self.textures@[i]).id == x
        &&& forall|i: int|
            0 <= i < self.textures@.len() ==> self.tex_infos@[(
            #[trigger] self.textures@[i]).id].params == self.textures@[i].params
        &&& (self.used_program == 0 || self.programs@.contains(self.used_program))
        &&& (self.bound_texture == 0 || exists|i: int|
            0 <= i < self.textures@.len() && (#[trigger] self.textures@[i]).id
                == self.bound_texture)
    }

    /// Opens a fresh context with no live objects, nothing current and an
    /// empty call log.
    pub fn new() -> (c: GlContext)
        ensures
            c.wf(),
            c@.shaders == Set::<u32>::empty(),
            c@.programs == Map::<u32, Set<u32>>::empty(),
            c@.textures == Map::<u32, TexInfo>::empty(),
            c@.used_program == 0u32,
            c@.bound_texture == 0u32,
            c@.log == Seq::<GlCall>::empty(),
            c.id_bound() == 1u32,
    {
        GlContext {
            next_id: 1,
            shaders: Vec::new(),
            programs: Vec::new(),
            textures: Vec::new(),
            used_program: 0,
            bound_texture: 0,
            shader_set: Ghost(Set::empty()),
            attach_sets: Ghost(Map::empty()),
            tex_infos: Ghost(Map::empty()),
            calls: Ghost(Seq::empty()),
        }
    }

    /// Whether a shader object with this id is alive in the context.
    pub fn is_shader_live(&self, id: u32) -> (r: bool)
        requires
            self.wf(),
        ensures
            r == self@.shaders.contains(id),
    {
        let mut i: usize = 0;
        while i < self.shaders.len()
            invariant
                self.wf(),
                i <= self.shaders@.len(),
                forall|j: int| 0 <= j < i ==> self.shaders@[j] != id,
            decreases self.shaders@.len() - i,
        {
            if self.shaders[i] == id {
                return true;
            }
            i = i + 1;
        }
        proof {
            assert(!self.shaders@.contains(id));
        }
        false
    }

    /// Whether a program object with this id is alive in the context.
    pub fn is_program_live(&self, id: u32) -> (r: bool)
        requires
            self.wf(),
        ensures
            r == self@.programs.dom().contains(id),
    {
        let mut i: usize = 0;
        while i < self.programs.len()
            invariant
                self.wf(),
                i <= self.programs@.len(),
                forall|j: int| 0 <= j < i ==> self.programs@[j] != id,
            decreases self.programs@.len() - i,
        {
            if self.programs[i] == id {
                return true;
            }
            i = i + 1;
        }
        proof {
            assert(!self.programs@.contains(id));
        }
        false
    }

    /// Whether a texture object with this id is alive in the context.
    pub fn is_texture_live(&self, id: u32) -> (r: bool)
        requires
            self.wf(),
        ensures
            r == self@.textures.dom().contains(id),
    {
        let mut i: usize = 0;
        while i < self.textures.len()
            invariant
                self.wf(),
                i <= self.textures@.len(),
                forall|j: int| 0 <= j < i ==> (#[trigger] self.textures@[j]).id != id,
            decreases self.textures@.len() - i,
        {
            if self.textures[i].id == id {
                return true;
            }
            i = i + 1;
        }
        false
    }

    /// Whether the context can still hand out `n` fresh object ids.
    pub fn can_still_allocate(&self, n: u32) -> (r: bool)
        ensures
            r == self.can_allocate(n as nat),
    {
        (self.next_id as u64) + (n as u64) <= u32::MAX as u64
    }

    /// The id of the currently used program; 0 when none is current.
    pub fn current_program(&self) -> (r: u32)
        ensures
            r == self@.used_program,
    {
        self.used_program
    }

    /// The id of the currently bound texture; 0 when none is bound.
    pub fn current_texture(&self) -> (r: u32)
        ensures
            r == self@.bound_texture,
    {
        self.bound_texture
    }

    /// Reads back the sampling configuration of a live texture object, or
    /// `None` when no texture with this id is alive.
    pub fn texture_params(&self, id: u32) -> (r: Option<TexParams>)
        requires
            self.wf(),
        ensures
            match r {
                Some(p) => self@.textures.dom().contains(id) && p == self@.textures[id].params,
                None => !self@.textures.dom().contains(id),
            },
    {
        let mut i: usize = 0;
        while i < self.textures.len()
            invariant
                self.wf(),
                i <= self.textures@.len(),
                forall|j: int| 0 <= j < i ==> (#[trigger] self.textures@[j]).id != id,
            decreases self.textures@.len() - i,
        {
            if self.textures[i].id == id {
                return Some(self.textures[i].params);
            }
            i = i + 1;
        }
        None
    }
}

impl GlContext {
    /// Issues shader-object creation for the given stage and returns the
    /// fresh object id.
    pub(crate) fn create_shader(&mut self, stage: ShaderStage) -> (id: u32)
        requires
            old(self).wf(),
            old(self).can_allocate(1),
        ensures
            final(self).wf(),
            id != 0,
            !old(self)@.shaders.contains(id),
            final(self)@.shaders == old(self)@.shaders.insert(id),
            final(self)@.programs == old(self)@.programs,
            final(self)@.textures == old(self)@.textures,
            final(self)@.used_program == old(self)@.used_program,
            final(self)@.bound_texture == old(self)@.bound_texture,
            final(self)@.log == old(self)@.log.push(GlCall::CreateShader { stage }),
            final(self).id_bound() == old(self).id_bound() + 1,
    {
        let id = self.next_id;
        self.next_id = self.next_id + 1;
        proof {
            if old(self).shaders@.contains(id) {
                let i = choose|i: int|
                    0 <= i < old(self).shaders@.len() && old(self).shaders@[i] == id;
                assert(old(self).shaders@[i] < id);
            }
        }
        self.shaders.push(id);
        self.shader_set = Ghost(self.shader_set@.insert(id));
        self.calls = Ghost(self.calls@.push(GlCall::CreateShader { stage }));
        proof {
            let news = self.shaders@;
            let olds = old(self).shaders@;
            assert forall|a: int, b: int|
                0 <= a < news.len() && 0 <= b < news.len() && a != b implies news[a]
                != news[b] by {
                if a < olds.len() && b < olds.len() {
                    assert(olds[a] != olds[b]);
                } else if b == olds.len() {
                    assert(news[a] == olds[a] && olds[a] < id);
                } else {
                    assert(news[b] == olds[b] && olds[b] < id);
                }
            }
        }
        id
    }

    /// Issues source submission for a live shader object.
    pub(crate) fn submit_source(&mut self, id: u32, source: &str)
        requires
            old(self).wf(),
            old(self)@.shaders.contains(id),
        ensures
            final(self).wf(),
            final(self)@.same_objects(old(self)@),
            final(self)@.log == old(self)@.log.push(GlCall::ShaderSource { shader: id, source: source@ }),
            final(self).id_bound() == old(self).id_bound(),
    {
        self.calls = Ghost(self.calls@.push(GlCall::ShaderSource { shader: id, source: source@ }));
    }

    /// Issues compilation for a live shader object.
    pub(crate) fn compile_shader(&mut self, id: u32)
        requires
            old(self).wf(),
            old(self)@.shaders.contains(id),
        ensures
            final(self).wf(),
            final(self)@.same_objects(old(self)@),
            final(self)@.log == old(self)@.log.push(GlCall::CompileShader { shader: id }),
            final(self).id_bound() == old(self).id_bound(),
    {
        self.calls = Ghost(self.calls@.push(GlCall::CompileShader { shader: id }));
    }

    /// Issues deletion of a live shader object.
    pub(crate) fn delete_shader(&mut self, id: u32)
        requires
            old(self).wf(),
            old(self)@.shaders.contains(id),
        ensures
            final(self).wf(),
            final(self)@.shaders == old(self)@.shaders.remove(id),
            final(self)@.programs == old(self)@.programs,
            final(self)@.textures == old(self)@.textures,
            final(self)@.used_program == old(self)@.used_program,
            final(self)@.bound_texture == old(self)@.bound_texture,
            final(self)@.log == old(self)@.log.push(GlCall::DeleteShader { shader: id }),
            final(self).id_bound() == old(self).id_bound(),
    {
        let mut i: usize = 0;
        while i < self.shaders.len()
            invariant
                self == old(self),
                old(self).wf(),
                old(self)@.shaders.contains(id),
                i <= self.shaders@.len(),
                forall|j: int| 0 <= j < i ==> self.shaders@[j] != id,
            decreases self.shaders@.len() - i,
        {
            if self.shaders[i] == id {
                proof {
                    lemma_remove_entry(old(self).shaders@, i as int);
                }
                self.shaders.remove(i);
                self.shader_set = Ghost(self.shader_set@.remove(id));
                self.calls = Ghost(self.calls@.push(GlCall::DeleteShader { shader: id }));
                proof {
                    old(self).shaders@.remove_ensures(i as int);
                }
                return ;
            }
            i = i + 1;
        }
        proof {
            assert(!old(self).shaders@.contains(id));
            assert(false);
        }
    }
}

impl GlContext {
    /// Issues program-object creation and returns the fresh object id.
    pub(crate) fn create_program(&mut self) -> (id: u32)
        requires
            old(self).wf(),
            old(self).can_allocate(1),
        ensures
            final(self).wf(),
            id != 0,
            !old(self)@.programs.dom().contains(id),
            id != old(self)@.used_program,
            final(self)@.programs == old(self)@.programs.insert(id, Set::<u32>::empty()),
            final(self)@.shaders == old(self)@.shaders,
            final(self)@.textures == old(self)@.textures,
            final(self)@.used_program == old(self)@.used_program,
            final(self)@.bound_texture == old(self)@.bound_texture,
            final(self)@.log == old(self)@.log.push(GlCall::CreateProgram { program: id }),
            final(self).id_bound() == old(self).id_bound() + 1,
    {
        let id = self.next_id;
        self.next_id = self.next_id + 1;
        proof {
            if old(self).programs@.contains(id) {
                let i = choose|i: int|
                    0 <= i < old(self).programs@.len() && old(self).programs@[i] == id;
                assert(old(self).programs@[i] < id);
            }
        }
        proof {
            if old(self).used_program != 0 {
                let i = choose|i: int|
                    0 <= i < old(self).programs@.len() && old(self).programs@[i]
                        == old(self).used_program;
                assert(old(self).programs@[i] < id);
            }
        }
        self.programs.push(id);
        self.attach_sets = Ghost(self.attach_sets@.insert(id, Set::empty()));
        self.calls = Ghost(self.calls@.push(GlCall::CreateProgram { program: id }));
        proof {
            let news = self.programs@;
            let olds = old(self).programs@;
            assert forall|a: int, b: int|
                0 <= a < news.len() && 0 <= b < news.len() && a != b implies news[a]
                != news[b] by {
                if a < olds.len() && b < olds.len() {
                    assert(olds[a] != olds[b]);
                } else if b == olds.len() {
                    assert(news[a] == olds[a] && olds[a] < id);
                } else {
                    assert(news[b] == olds[b] && olds[b] < id);
                }
            }
        }
        id
    }

    /// Issues attachment of a live shader object to a live program object.
    pub(crate) fn attach_shader(&mut self, program: u32, shader: u32)
        requires
            old(self).wf(),
            old(self)@.programs.dom().contains(program),
            old(self)@.shaders.contains(shader),
        ensures
            final(self).wf(),
            final(self)@.programs == old(self)@.programs.insert(
                program,
                old(self)@.programs[program].insert(shader),
            ),
            final(self)@.shaders == old(self)@.shaders,
            final(self)@.textures == old(self)@.textures,
            final(self)@.used_program == old(self)@.used_program,
            final(self)@.bound_texture == old(self)@.bound_texture,
            final(self)@.log == old(self)@.log.push(GlCall::AttachShader { program, shader }),
            final(self).id_bound() == old(self).id_bound(),
    {
        self.attach_sets = Ghost(
            self.attach_sets@.insert(program, self.attach_sets@[program].insert(shader)),
        );
        self.calls = Ghost(self.calls@.push(GlCall::AttachShader { program, shader }));
    }

    /// Issues linking of a live program object.
    pub(crate) fn link_program(&mut self, program: u32)
        requires
            old(self).wf(),
            old(self)@.programs.dom().contains(program),
        ensures
            final(self).wf(),
            final(self)@.same_objects(old(self)@),
            final(self)@.log == old(self)@.log.push(GlCall::LinkProgram { program }),
            final(self).id_bound() == old(self).id_bound(),
    {
        self.calls = Ghost(self.calls@.push(GlCall::LinkProgram { program }));
    }

    /// Issues detachment of a shader object from a live program object.
    pub(crate) fn detach_shader(&mut self, program: u32, shader: u32)
        requires
            old(self).wf(),
            old(self)@.programs.dom().contains(program),
        ensures
            final(self).wf(),
            final(self)@.programs == old(self)@.programs.insert(
                program,
                old(self)@.programs[program].remove(shader),
            ),
            final(self)@.shaders == old(self)@.shaders,
            final(self)@.textures == old(self)@.textures,
            final(self)@.used_program == old(self)@.used_program,
            final(self)@.bound_texture == old(self)@.bound_texture,
            final(self)@.log == old(self)@.log.push(GlCall::DetachShader { program, shader }),
            final(self).id_bound() == old(self).id_bound(),
    {
        self.attach_sets = Ghost(
            self.attach_sets@.insert(program, self.attach_sets@[program].remove(shader)),
        );
        self.calls = Ghost(self.calls@.push(GlCall::DetachShader { program, shader }));
    }

    /// Issues deletion of a live program object. Deleting the currently used
    /// program leaves no program current.
    pub(crate) fn delete_program(&mut self, id: u32)
        requires
            old(self).wf(),
            old(self)@.programs.dom().contains(id),
        ensures
            final(self).wf(),
            final(self)@.programs == old(self)@.programs.remove(id),
            final(self)@.shaders == old(self)@.shaders,
            final(self)@.textures == old(self)@.textures,
            final(self)@.used_program == (
                if old(self)@.used_program == id {
                    0u32
                } else {
                    old(self)@.used_program
                }
            ),
            final(self)@.bound_texture == old(self)@.bound_texture,
            final(self)@.log == old(self)@.log.push(GlCall::DeleteProgram { program: id }),
            final(self).id_bound() == old(self).id_bound(),
    {
        let mut i: usize = 0;
        while i < self.programs.len()
            invariant
                self == old(self),
                old(self).wf(),
                old(self)@.programs.dom().contains(id),
                i <= self.programs@.len(),
                forall|j: int| 0 <= j < i ==> self.programs@[j] != id,
            decreases self.programs@.len() - i,
        {
            if self.programs[i] == id {
                proof {
                    lemma_remove_entry(old(self).programs@, i as int);
                }
                self.programs.remove(i);
                self.attach_sets = Ghost(self.attach_sets@.remove(id));
                self.calls = Ghost(self.calls@.push(GlCall::DeleteProgram { program: id }));
                if self.used_program == id {
                    self.used_program = 0;
                }
                proof {
                    old(self).programs@.remove_ensures(i as int);
                }
                return ;
            }
            i = i + 1;
        }
        proof {
            assert(!old(self).programs@.contains(id));
            assert(false);
        }
    }

    /// Issues a use-program call: makes a live program current, or makes no
    /// program current when the id is 0.
    pub(crate) fn use_program(&mut self, id: u32)
        requires
            old(self).wf(),
            id == 0 || old(self)@.programs.dom().contains(id),
        ensures
            final(self).wf(),
            final(self)@.shaders == old(self)@.shaders,
            final(self)@.programs == old(self)@.programs,
            final(self)@.textures == old(self)@.textures,
            final(self)@.used_program == id,
            final(self)@.bound_texture == old(self)@.bound_texture,
            final(self)@.log == old(self)@.log.push(GlCall::UseProgram { program: id }),
            final(self).id_bound() == old(self).id_bound(),
    {
        self.used_program = id;
        self.calls = Ghost(self.calls@.push(GlCall::UseProgram { program: id }));
    }
}

impl GlContext {
    /// The index of the live texture record with this id.
    fn find_texture(&self, id: u32) -> (i: usize)
        requires
            self.wf(),
            self@.textures.dom().contains(id),
        ensures
            i < self.textures@.len(),
            self.textures@[i as int].id == id,
    {
        let mut i: usize = 0;
        while i < self.textures.len()
            invariant
                self.wf(),
                self@.textures.dom().contains(id),
                i <= self.textures@.len(),
                forall|j: int| 0 <= j < i ==> (#[trigger] self.textures@[j]).id != id,
            decreases self.textures@.len() - i,
        {
            if self.textures[i].id == id {
                return i;
            }
            i = i + 1;
        }
        proof {
            assert(false);
        }
        0
    }

    /// Issues texture-object generation and returns the fresh object id. The
    /// new object starts with the context's initial sampling configuration,
    /// no uploaded image and no mipmap chain.
    pub(crate) fn gen_texture(&mut self) -> (id: u32)
        requires
            old(self).wf(),
            old(self).can_allocate(1),
        ensures
            final(self).wf(),
            id != 0,
            !old(self)@.textures.dom().contains(id),
            id != old(self)@.bound_texture,
            final(self)@.textures == old(self)@.textures.insert(
                id,
                TexInfo { params: TexParams::spec_initial(), image: None, mipmapped: false },
            ),
            final(self)@.shaders == old(self)@.shaders,
            final(self)@.programs == old(self)@.programs,
            final(self)@.used_program == old(self)@.used_program,
            final(self)@.bound_texture == old(self)@.bound_texture,
            final(self)@.log == old(self)@.log.push(GlCall::GenTexture { texture: id }),
            final(self).id_bound() == old(self).id_bound() + 1,
    {
        let id = self.next_id;
        self.next_id = self.next_id + 1;
        proof {
            if old(self)@.textures.dom().contains(id) {
                let i = choose|i: int|
                    0 <= i < old(self).textures@.len() && (#[trigger] old(self).textures@[i]).id
                        == id;
                assert(old(self).textures@[i].id < id);
            }
        }
        proof {
            if old(self).bound_texture != 0 {
                let i = choose|i: int|
                    0 <= i < old(self).textures@.len() && (#[trigger] old(self).textures@[i]).id
                        == old(self).bound_texture;
                assert(old(self).textures@[i].id < id);
            }
        }
        self.textures.push(TextureRecord { id, params: TexParams::initial() });
        self.tex_infos = Ghost(
            self.tex_infos@.insert(
                id,
                TexInfo { params: TexParams::spec_initial(), image: None, mipmapped: false },
            ),
        );
        self.calls = Ghost(self.calls@.push(GlCall::GenTexture { texture: id }));
        proof {
            let news = self.textures@;
            let olds = old(self).textures@;
            assert forall|a: int, b: int| 0 <= a < b < news.len() implies (#[trigger] news[a]).id
                != (#[trigger] news[b]).id by {
                if b == olds.len() {
                    assert(news[a] == olds[a] && olds[a].id < id);
                } else {
                    assert(news[a] == olds[a] && news[b] == olds[b]);
                }
            }
            assert forall|x: u32| #[trigger] self.tex_infos@.dom().contains(x) implies exists|i: int|
                0 <= i < news.len() && (#[trigger] news[i]).id == x by {
                if x == id {
                    assert(news[olds.len() as int].id == x);
                } else {
                    let i = choose|i: int|
                        0 <= i < olds.len() && (#[trigger] olds[i]).id == x;
                    assert(news[i].id == x);
                }
            }
            assert forall|i: int| 0 <= i < news.len() implies self.tex_infos@.dom().contains(
                (#[trigger] news[i]).id,
            ) by {
                if i < olds.len() {
                    assert(olds[i] == news[i]);
                }
            }
            assert forall|k: int| 0 <= k < news.len() implies self.tex_infos@[(
            #[trigger] news[k]).id].params == news[k].params by {
                if k < olds.len() {
                    assert(news[k] == olds[k]);
                    assert(olds[k].id < id);
                }
            }
            if self.bound_texture != 0 {
                let k = choose|k: int|
                    0 <= k < olds.len() && (#[trigger] olds[k]).id == self.bound_texture;
                assert(news[k].id == self.bound_texture);
            }
        }
        id
    }

    /// Issues a bind-texture call: makes a live texture current, or leaves no
    /// texture bound when the id is 0.
    pub(crate) fn bind_texture(&mut self, id: u32)
        requires
            old(self).wf(),
            id == 0 || old(self)@.textures.dom().contains(id),
        ensures
            final(self).wf(),
            final(self)@.shaders == old(self)@.shaders,
            final(self)@.programs == old(self)@.programs,
            final(self)@.textures == old(self)@.textures,
            final(self)@.used_program == old(self)@.used_program,
            final(self)@.bound_texture == id,
            final(self)@.log == old(self)@.log.push(GlCall::BindTexture { texture: id }),
            final(self).id_bound() == old(self).id_bound(),
    {
        self.bound_texture = id;
        self.calls = Ghost(self.calls@.push(GlCall::BindTexture { texture: id }));
    }

    /// Sets the horizontal wrap mode of the currently bound texture.
    pub(crate) fn set_wrap_s(&mut self, mode: WrapMode)
        requires
            old(self).wf(),
            old(self)@.bound_texture != 0,
        ensures
            final(self).wf(),
            final(self)@.textures == old(self)@.textures.insert(
                old(self)@.bound_texture,
                TexInfo {
                    params: TexParams {
                        wrap_s: mode,
                        ..old(self)@.textures[old(self)@.bound_texture].params
                    },
                    ..old(self)@.textures[old(self)@.bound_texture]
                },
            ),
            final(self)@.shaders == old(self)@.shaders,
            final(self)@.programs == old(self)@.programs,
            final(self)@.used_program == old(self)@.used_program,
            final(self)@.bound_texture == old(self)@.bound_texture,
            final(self)@.log == old(self)@.log.push(
                GlCall::SetWrapS { texture: old(self)@.bound_texture, mode },
            ),
            final(self).id_bound() == old(self).id_bound(),
    {
        let b = self.bound_texture;
        let i = self.find_texture(b);
        let p = self.textures[i].params;
        self.textures.set(i, TextureRecord { id: b, params: TexParams { wrap_s: mode, ..p } });
        self.tex_infos = Ghost(
            self.tex_infos@.insert(
                b,
                TexInfo { params: TexParams { wrap_s: mode, ..self.tex_infos@[b].params },
                    ..self.tex_infos@[b] },
            ),
        );
        self.calls = Ghost(self.calls@.push(GlCall::SetWrapS { texture: b, mode }));
        proof {
            self.lemma_update_wf(old(self), i as int);
        }
    }

    /// Sets the vertical wrap mode of the currently bound texture.
    pub(crate) fn set_wrap_t(&mut self, mode: WrapMode)
        requires
            old(self).wf(),
            old(self)@.bound_texture != 0,
        ensures
            final(self).wf(),
            final(self)@.textures == old(self)@.textures.insert(
                old(self)@.bound_texture,
                TexInfo {
                    params: TexParams {
                        wrap_t: mode,
                        ..old(self)@.textures[old(self)@.bound_texture].params
                    },
                    ..old(self)@.textures[old(self)@.bound_texture]
                },
            ),
            final(self)@.shaders == old(self)@.shaders,
            final(self)@.programs == old(self)@.programs,
            final(self)@.used_program == old(self)@.used_program,
            final(self)@.bound_texture == old(self)@.bound_texture,
            final(self)@.log == old(self)@.log.push(
                GlCall::SetWrapT { texture: old(self)@.bound_texture, mode },
            ),
            final(self).id_bound() == old(self).id_bound(),
    {
        let b = self.bound_texture;
        let i = self.find_texture(b);
        let p = self.textures[i].params;
        self.textures.set(i, TextureRecord { id: b, params: TexParams { wrap_t: mode, ..p } });
        self.tex_infos = Ghost(
            self.tex_infos@.insert(
                b,
                TexInfo { params: TexParams { wrap_t: mode, ..self.tex_infos@[b].params },
                    ..self.tex_infos@[b] },
            ),
        );
        self.calls = Ghost(self.calls@.push(GlCall::SetWrapT { texture: b, mode }));
        proof {
            self.lemma_update_wf(old(self), i as int);
        }
    }

    /// Sets the minification filter of the currently bound texture.
    pub(crate) fn set_min_filter(&mut self, filter: MinFilter)
        requires
            old(self).wf(),
            old(self)@.bound_texture != 0,
        ensures
            final(self).wf(),
            final(self)@.textures == old(self)@.textures.insert(
                old(self)@.bound_texture,
                TexInfo {
                    params: TexParams {
                        min_filter: filter,
                        ..old(self)@.textures[old(self)@.bound_texture].params
                    },
                    ..old(self)@.textures[old(self)@.bound_texture]
                },
            ),
            final(self)@.shaders == old(self)@.shaders,
            final(self)@.programs == old(self)@.programs,
            final(self)@.used_program == old(self)@.used_program,
            final(self)@.bound_texture == old(self)@.bound_texture,
            final(self)@.log == old(self)@.log.push(
                GlCall::SetMinFilter { texture: old(self)@.bound_texture, filter },
            ),
            final(self).id_bound() == old(self).id_bound(),
    {
        let b = self.bound_texture;
        let i = self.find_texture(b);
        let p = self.textures[i].params;
        self.textures.set(
            i,
            TextureRecord { id: b, params: TexParams { min_filter: filter, ..p } },
        );
        self.tex_infos = Ghost(
            self.tex_infos@.insert(
                b,
                TexInfo { params: TexParams { min_filter: filter, ..self.tex_infos@[b].params },
                    ..self.tex_infos@[b] },
            ),
        );
        self.calls = Ghost(self.calls@.push(GlCall::SetMinFilter { texture: b, filter }));
        proof {
            self.lemma_update_wf(old(self), i as int);
        }
    }

    /// Sets the magnification filter of the currently bound texture.
    pub(crate) fn set_mag_filter(&mut self, filter: MagFilter)
        requires
            old(self).wf(),
            old(self)@.bound_texture != 0,
        ensures
            final(self).wf(),
            final(self)@.textures == old(self)@.textures.insert(
                old(self)@.bound_texture,
                TexInfo {
                    params: TexParams {
                        mag_filter: filter,
                        ..old(self)@.textures[old(self)@.bound_texture].params
                    },
                    ..old(self)@.textures[old(self)@.bound_texture]
                },
            ),
            final(self)@.shaders == old(self)@.shaders,
            final(self)@.programs == old(self)@.programs,
            final(self)@.used_program == old(self)@.used_program,
            final(self)@.bound_texture == old(self)@.bound_texture,
            final(self)@.log == old(self)@.log.push(
                GlCall::SetMagFilter { texture: old(self)@.bound_texture, filter },
            ),
            final(self).id_bound() == old(self).id_bound(),
    {
        let b = self.bound_texture;
        let i = self.find_texture(b);
        let p = self.textures[i].params;
        self.textures.set(
            i,
            TextureRecord { id: b, params: TexParams { mag_filter: filter, ..p } },
        );
        self.tex_infos = Ghost(
            self.tex_infos@.insert(
                b,
                TexInfo { params: TexParams { mag_filter: filter, ..self.tex_infos@[b].params },
                    ..self.tex_infos@[b] },
            ),
        );
        self.calls = Ghost(self.calls@.push(GlCall::SetMagFilter { texture: b, filter }));
        proof {
            self.lemma_update_wf(old(self), i as int);
        }
    }

    /// After a record update that keeps the id at index `i`, the ledger is
    /// still well formed.
    proof fn lemma_update_wf(&self, pre: &GlContext, i: int)
        requires
            pre.wf(),
            0 <= i < pre.textures@.len(),
            self.next_id == pre.next_id,
            self.shaders@ == pre.shaders@,
            self.shader_set@ == pre.shader_set@,
            self.programs@ == pre.programs@,
            self.attach_sets@ == pre.attach_sets@,
            self.used_program == pre.used_program,
            self.bound_texture == pre.bound_texture,
            self.textures@.len() == pre.textures@.len(),
            forall|j: int|
                0 <= j < pre.textures@.len() ==> (#[trigger] self.textures@[j]).id
                    == pre.textures@[j].id,
            self.tex_infos@ == pre.tex_infos@.insert(
                pre.textures@[i].id,
                TexInfo {
                    params: self.textures@[i].params,
                    ..pre.tex_infos@[pre.textures@[i].id]
                },
            ),
            forall|j: int|
                0 <= j < pre.textures@.len() && j != i ==> (#[trigger] self.textures@[j]).params
                    == pre.textures@[j].params,
        ensures
            self.wf(),
    {
        let id = pre.textures@[i].id;
        assert forall|x: u32| #[trigger] self.tex_infos@.dom().contains(x) implies exists|k: int|
            0 <= k < self.textures@.len() && (#[trigger] self.textures@[k]).id == x by {
            if x == id {
                assert(self.textures@[i].id == x);
            } else {
                let k = choose|k: int|
                    0 <= k < pre.textures@.len() && (#[trigger] pre.textures@[k]).id == x;
                assert(self.textures@[k].id == x);
            }
        }
        assert forall|k: int| 0 <= k < self.textures@.len() implies self.tex_infos@.dom().contains(
            (#[trigger] self.textures@[k]).id,
        ) by {
            assert(pre.tex_infos@.dom().contains(pre.textures@[k].id));
        }
        assert forall|k: int| 0 <= k < self.textures@.len() implies self.tex_infos@[(
        #[trigger] self.textures@[k]).id].params == self.textures@[k].params by {
            if k != i {
                assert(self.textures@[k].id != id);
            }
        }
        assert forall|a: int, b: int|
            0 <= a < b < self.textures@.len() implies (#[trigger] self.textures@[a]).id
            != (#[trigger] self.textures@[b]).id by {
            assert(self.textures@[a].id == pre.textures@[a].id);
            assert(self.textures@[b].id == pre.textures@[b].id);
        }
        assert forall|k: int| 0 <= k < self.textures@.len() implies 0 < (
        #[trigger] self.textures@[k]).id < self.next_id by {
            assert(self.textures@[k].id == pre.textures@[k].id);
        }
        if self.bound_texture != 0 {
            let k = choose|k: int|
                0 <= k < pre.textures@.len() && (#[trigger] pre.textures@[k]).id
                    == self.bound_texture;
            assert(self.textures@[k].id == self.bound_texture);
        }
    }

    /// Issues a base-level image upload to the currently bound texture. The
    /// pixel buffer must be tightly packed, three bytes per pixel; uploading
    /// replaces the base level, so any previous mipmap chain no longer
    /// derives from it.
    pub(crate) fn tex_image_2d(&mut self, width: u32, height: u32, pixels: &Vec<u8>)
        requires
            old(self).wf(),
            old(self)@.bound_texture != 0,
            pixels@.len() == width * height * 3,
        ensures
            final(self).wf(),
            final(self)@.textures == old(self)@.textures.insert(
                old(self)@.bound_texture,
                TexInfo {
                    image: Some(ImageData { width, height, pixels: pixels@ }),
                    mipmapped: false,
                    ..old(self)@.textures[old(self)@.bound_texture]
                },
            ),
            final(self)@.shaders == old(self)@.shaders,
            final(self)@.programs == old(self)@.programs,
            final(self)@.used_program == old(self)@.used_program,
            final(self)@.bound_texture == old(self)@.bound_texture,
            final(self)@.log == old(self)@.log.push(
                GlCall::TexImage2D {
                    texture: old(self)@.bound_texture,
                    width,
                    height,
                    pixels: pixels@,
                },
            ),
            final(self).id_bound() == old(self).id_bound(),
    {
        let b = self.bound_texture;
        proof {
            let i = choose|i: int|
                0 <= i < self.textures@.len() && (#[trigger] self.textures@[i]).id == b;
            assert(self.tex_infos@.dom().contains(b));
        }
        self.tex_infos = Ghost(
            self.tex_infos@.insert(
                b,
                TexInfo {
                    image: Some(ImageData { width, height, pixels: pixels@ }),
                    mipmapped: false,
                    ..self.tex_infos@[b]
                },
            ),
        );
        self.calls = Ghost(
            self.calls@.push(GlCall::TexImage2D { texture: b, width, height, pixels: pixels@ }),
        );
    }

    /// Issues mipmap generation on the currently bound texture, deriving the
    /// full chain from its uploaded base level.
    pub(crate) fn generate_mipmap(&mut self)
        requires
            old(self).wf(),
            old(self)@.bound_texture != 0,
            old(self)@.textures[old(self)@.bound_texture].image is Some,
        ensures
            final(self).wf(),
            final(self)@.textures == old(self)@.textures.insert(
                old(self)@.bound_texture,
                TexInfo {
                    mipmapped: true,
                    ..old(self)@.textures[old(self)@.bound_texture]
                },
            ),
            final(self)@.shaders == old(self)@.shaders,
            final(self)@.programs == old(self)@.programs,
            final(self)@.used_program == old(self)@.used_program,
            final(self)@.bound_texture == old(self)@.bound_texture,
            final(self)@.log == old(self)@.log.push(
                GlCall::GenerateMipmap { texture: old(self)@.bound_texture },
            ),
            final(self).id_bound() == old(self).id_bound(),
    {
        let b = self.bound_texture;
        self.tex_infos = Ghost(
            self.tex_infos@.insert(b, TexInfo { mipmapped: true, ..self.tex_infos@[b] }),
        );
        self.calls = Ghost(self.calls@.push(GlCall::GenerateMipmap { texture: b }));
    }

    /// Issues deletion of a live texture object. Deleting the currently bound
    /// texture leaves no texture bound.
    pub(crate) fn delete_texture(&mut self, id: u32)
        requires
            old(self).wf(),
            old(self)@.textures.dom().contains(id),
        ensures
            final(self).wf(),
            final(self)@.textures == old(self)@.textures.remove(id),
            final(self)@.shaders == old(self)@.shaders,
            final(self)@.programs == old(self)@.programs,
            final(self)@.used_program == old(self)@.used_program,
            final(self)@.bound_texture == (
                if old(self)@.bound_texture == id {
                    0u32
                } else {
                    old(self)@.bound_texture
                }
            ),
            final(self)@.log == old(self)@.log.push(GlCall::DeleteTexture { texture: id }),
            final(self).id_bound() == old(self).id_bound(),
    {
        let i = self.find_texture(id);
        self.textures.remove(i);
        self.tex_infos = Ghost(self.tex_infos@.remove(id));
        self.calls = Ghost(self.calls@.push(GlCall::DeleteTexture { texture: id }));
        if self.bound_texture == id {
            self.bound_texture = 0;
        }
        proof {
            let olds = old(self).textures@;
            let news = self.textures@;
            olds.remove_ensures(i as int);
            assert forall|a: int, b: int| 0 <= a < b < news.len() implies (#[trigger] news[a]).id
                != (#[trigger] news[b]).id by {
                let a2 = if a < i { a } else { a + 1 };
                let b2 = if b < i { b } else { b + 1 };
                assert(news[a] == olds[a2]);
                assert(news[b] == olds[b2]);
            }
            assert forall|x: u32| #[trigger] self.tex_infos@.dom().contains(x) implies exists|k: int|
                0 <= k < news.len() && (#[trigger] news[k]).id == x by {
                let k = choose|k: int|
                    0 <= k < olds.len() && (#[trigger] olds[k]).id == x;
                if k < i {
                    assert(news[k].id == x);
                } else {
                    assert(news[k - 1].id == x);
                }
            }
            assert forall|k: int| 0 <= k < news.len() implies self.tex_infos@.dom().contains(
                (#[trigger] news[k]).id,
            ) by {
                let k2 = if k < i { k } else { k + 1 };
                assert(news[k] == olds[k2]);
                assert(olds[k2].id != olds[i as int].id);
            }
            assert forall|k: int| 0 <= k < news.len() implies self.tex_infos@[(
            #[trigger] news[k]).id].params == news[k].params by {
                let k2 = if k < i { k } else { k + 1 };
                assert(news[k] == olds[k2]);
                assert(olds[k2].id != olds[i as int].id);
            }
            if self.bound_texture != 0 {
                let k = choose|k: int|
                    0 <= k < olds.len() && (#[trigger] olds[k]).id == self.bound_texture;
                if k < i {
                    assert(news[k].id == self.bound_texture);
                } else {
                    assert(news[k - 1].id == self.bound_texture);
                }
            }
        }
    }
}

} // verus!
