//! Shader stage kinds and the naming convention that selects one.
//!
//! A logical shader resource name carries its pipeline stage as a suffix:
//! `.vert` names a vertex shader, `.frag` a fragment shader. The suffixes
//! form a lookup table checked in order; the first match wins, and a name
//! matching no entry has no stage at all.

use vstd::prelude::*;
use vstd::string::StrSliceExecFns;

verus! {

/// The pipeline role of a shader: vertex or fragment processing.
#[derive(Clone, Copy, Debug, PartialEq, Eq, Structural)]
pub enum ShaderStage {
    Vertex,
    Fragment,
}

impl ShaderStage {
    /// The GL enumerant for this stage kind.
    pub open spec fn spec_gl_code(self) -> u32 {
        match self {
            ShaderStage::Vertex => 0x8B31,
            ShaderStage::Fragment => 0x8B30,
        }
    }

    /// Encodes the stage as the GL enumerant handed to shader creation.
    pub fn gl_code(self) -> (c: u32)
        ensures
            c == self.spec_gl_code(),
    {
        match self {
            ShaderStage::Vertex => 0x8B31,
            ShaderStage::Fragment => 0x8B30,
        }
    }
}

/// `s` ends with `suffix`.
pub open spec fn has_suffix(s: Seq<char>, suffix: Seq<char>) -> bool {
    s.len() >= suffix.len() && s.subrange(s.len() - suffix.len(), s.len() as int)
        == suffix
}

/// The stage a resource name selects: the suffix table `.vert` then `.frag`,
/// checked in order, first match wins; no match means no stage.
pub open spec fn spec_stage_of(name: Seq<char>) -> Option<ShaderStage> {
    if has_suffix(name, ".vert"@) {
        Some(ShaderStage::Vertex)
    } else if has_suffix(name, ".frag"@) {
        Some(ShaderStage::Fragment)
    } else {
        None
    }
}

/// Character-by-character suffix test over the views of the two strings.
fn ends_with(name: &str, suffix: &str) -> (r: bool)
    ensures
        r == has_suffix(name@, suffix@),
{
    let n: usize = name.unicode_len();
    let m: usize = suffix.unicode_len();
    if n < m {
        return false;
    }
    let mut i: usize = 0;
    while i < m
        invariant
            n == name@.len(),
            m == suffix@.len(),
            m <= n,
            i <= m,
            forall|j: int| 0 <= j < i ==> name@[n - m + j] == suffix@[j],
        decreases m - i,
    {
        let a = name.get_char(n - m + i);
        let b = suffix.get_char(i);
        if a != b {
            proof {
                assert(!has_suffix(name@, suffix@)) by {
                    if has_suffix(name@, suffix@) {
                        assert(name@.subrange(n - m, n as int)[i as int]
                            == suffix@[i as int]);
                    }
                }
            }
            return false;
        }
        i = i + 1;
    }
    proof {
        assert(name@.subrange(n - m, n as int) =~= suffix@);
    }
    true
}

/// Infers the shader stage from a resource name, by the suffix table.
pub fn stage_for_name(name: &str) -> (r: Option<ShaderStage>)
    ensures
        r == spec_stage_of(name@),
{
    if ends_with(name, ".vert") {
        Some(ShaderStage::Vertex)
    } else if ends_with(name, ".frag") {
        Some(ShaderStage::Fragment)
    } else {
        None
    }
}

} // verus!
