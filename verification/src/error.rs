//! The error taxonomy of the resource layer.
//!
//! Every failure is returned to the immediate caller as one of these typed
//! variants; none is retried, and each carries enough structure to rebuild a
//! complete human-readable message.

use vstd::prelude::*;
use vstd::string::StringExecFns;

verus! {

/// A failure while building a shader, program or texture resource.
#[derive(Debug)]
pub enum Error {
    /// The resource loader could not supply bytes or text for `name`;
    /// `inner` is the loader's own message.
    ResourceLoad { name: String, inner: String },
    /// The resource name carries no recognized shader-stage suffix.
    CanNotDetermineShaderTypeForResource { name: String },
    /// The driver's compiler rejected the shader source; `message` is the
    /// driver-reported info log, verbatim.
    CompileError { name: String, message: String },
    /// The driver's linker rejected the attached shader set; `message` is the
    /// driver-reported info log, verbatim.
    LinkError { name: String, message: String },
    /// The image bytes could not be decoded into pixels; `inner` is the
    /// decoder's own message.
    ImageError { name: String, inner: String },
}

impl Error {
    /// The complete human-readable message for this failure.
    pub open spec fn spec_message(&self) -> Seq<char> {
        match self {
            Error::ResourceLoad { name, inner } => "Failed to load resource "@ + name@
                + ": "@ + inner@,
            Error::CanNotDetermineShaderTypeForResource { name } =>
                "Can not determine shader type for resource "@ + name@,
            Error::CompileError { name, message } => "Failed to compile shader "@ + name@
                + ": "@ + message@,
            Error::LinkError { name, message } => "Failed to link program "@ + name@
                + ": "@ + message@,
            Error::ImageError { name, inner: _ } => "Failed to load image "@ + name@,
        }
    }

    /// Renders the complete human-readable message for this failure.
    pub fn message(&self) -> (m: String)
        ensures
            m@ == self.spec_message(),
    {
        match self {
            Error::ResourceLoad { name, inner } => {
                let mut m = String::from_str("Failed to load resource ");
                m.append(name.as_str());
                m.append(": ");
                m.append(inner.as_str());
                m
            },
            Error::CanNotDetermineShaderTypeForResource { name } => {
                let mut m = String::from_str("Can not determine shader type for resource ");
                m.append(name.as_str());
                m
            },
            Error::CompileError { name, message } => {
                let mut m = String::from_str("Failed to compile shader ");
                m.append(name.as_str());
                m.append(": ");
                m.append(message.as_str());
                m
            },
            Error::LinkError { name, message } => {
                let mut m = String::from_str("Failed to link program ");
                m.append(name.as_str());
                m.append(": ");
                m.append(message.as_str());
                m
            },
            Error::ImageError { name, inner: _ } => {
                let mut m = String::from_str("Failed to load image ");
                m.append(name.as_str());
                m
            },
        }
    }
}

/// `e` reports that loading the resource called `name` failed with the
/// loader message `inner`.
pub open spec fn is_resource_load(e: Error, name: Seq<char>, inner: Seq<char>) -> bool {
    &&& e matches Error::ResourceLoad { name: n, inner: i }
    &&& n@ == name
    &&& i@ == inner
}

/// `e` reports that no shader stage could be determined for `name`.
pub open spec fn is_unknown_stage(e: Error, name: Seq<char>) -> bool {
    &&& e matches Error::CanNotDetermineShaderTypeForResource { name: n }
    &&& n@ == name
}

/// `e` reports that compiling the shader called `name` failed with the
/// driver log `message`.
pub open spec fn is_compile_error(e: Error, name: Seq<char>, message: Seq<char>) -> bool {
    &&& e matches Error::CompileError { name: n, message: m }
    &&& n@ == name
    &&& m@ == message
}

/// `e` reports that linking the program called `name` failed with the
/// driver log `message`.
pub open spec fn is_link_error(e: Error, name: Seq<char>, message: Seq<char>) -> bool {
    &&& e matches Error::LinkError { name: n, message: m }
    &&& n@ == name
    &&& m@ == message
}

} // verus!
