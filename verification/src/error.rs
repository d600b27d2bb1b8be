//! What can go wrong, as plain values.

use vstd::prelude::*;

#[allow(unused_imports)]
use crate::text::signed_decimal;

verus! {

/// mpv's `MPV_ERROR_GENERIC`: the code of a failure that carries none of its
/// own.
pub const MPV_ERROR_GENERIC: i32 = -20;

/// An error of libmpv or of the binding to it.
#[derive(Debug)]
pub struct MpvError {
    /// The raw `mpv_error` code, if the error maps onto one.
    pub code: Option<i32>,
    /// The diagnostic text: mpv's own plus the numeric code.
    pub text: String,
}

/// Everything that a fallible call can return.
#[derive(Debug)]
#[non_exhaustive]
pub enum Error {
    /// An error from libmpv itself.
    Mpv(MpvError),
    /// An attach called while a render context is already live. mpv supports
    /// exactly one render context per handle.
    AlreadyAttached,
    /// A render call against the wrong attached backend: a wiring bug in the
    /// shell, surfaced loudly rather than silently dropped.
    RenderBackendMismatch,
    /// Setting up the exported-frame backend's hidden GL context or its
    /// exportable framebuffers failed. The common cause that is no bug is a
    /// session without GPU access.
    ExportSetup(String),
    /// Importing an exported frame into a wgpu device failed.
    WgpuImport(String),
    /// A call that needs a live render context ran before any attach.
    NotAttached,
}

impl From<MpvError> for Error {
    fn from(e: MpvError) -> (r: Error) {
        Error::Mpv(e)
    }
}

impl vstd::std_specs::convert::FromSpecImpl<MpvError> for Error {
    open spec fn obeys_from_spec() -> bool {
        true
    }

    open spec fn from_spec(e: MpvError) -> Error {
        Error::Mpv(e)
    }
}

/// The `mpv_error` code that a failure is reported under.
pub open spec fn code_of(error: Error) -> i32 {
    match error {
        Error::Mpv(MpvError { code: Some(code), text: _ }) => code,
        _ => MPV_ERROR_GENERIC,
    }
}

/// The diagnostic text that a failure is reported with, where `generic` is
/// mpv's text for [`MPV_ERROR_GENERIC`].
pub open spec fn text_of(error: Error, generic: String) -> String {
    match error {
        Error::Mpv(MpvError { code: Some(_), text }) => text,
        _ => generic,
    }
}

/// `head` followed by `code` in round brackets.
pub open spec fn with_code(head: Seq<char>, code: i32) -> Seq<char> {
    head + " ("@ + signed_decimal(code as int) + ")"@
}

/// `text` ends in `code` in round brackets.
pub open spec fn tells_code(text: Seq<char>, code: i32) -> bool {
    exists|head: Seq<char>| text == #[trigger] with_code(head, code)
}

/// `describe` gives, for each of mpv's codes, a text that ends in the code.
pub open spec fn tells_codes(describe: spec_fn(i32) -> Seq<char>) -> bool {
    forall|code: i32| code < 0 ==> tells_code(#[trigger] describe(code), code)
}

impl MpvError {
    /// The error is one of mpv's: its code, if it has one, is negative, and
    /// its text is what `describe` gives for the code.
    pub open spec fn genuine(self, describe: spec_fn(i32) -> Seq<char>) -> bool {
        self.code matches Some(code) ==> code < 0 && self.text@ == describe(code)
    }
}

impl Error {
    /// Where the error is mpv's, it is a genuine one.
    pub open spec fn genuine(self, describe: spec_fn(i32) -> Seq<char>) -> bool {
        self matches Error::Mpv(e) ==> e.genuine(describe)
    }

    /// The text shown for the error.
    pub open spec fn shown(self) -> Seq<char> {
        match self {
            Error::Mpv(e) => "mpv: "@ + e.text@,
            Error::AlreadyAttached => "a render context is already attached"@,
            Error::RenderBackendMismatch =>
                "render call does not match the attached render backend"@,
            Error::ExportSetup(what) => "exported render setup: "@ + what@,
            Error::WgpuImport(what) => "wgpu import: "@ + what@,
            Error::NotAttached => "no render context is attached"@,
        }
    }

    /// The text to show for the error.
    pub fn message(&self) -> (r: String)
        ensures
            r@ == self.shown(),
    {
        match self {
            Error::Mpv(e) => prefixed("mpv: ", &e.text),
            Error::AlreadyAttached => "a render context is already attached".to_owned(),
            Error::RenderBackendMismatch =>
                "render call does not match the attached render backend".to_owned(),
            Error::ExportSetup(what) => prefixed("exported render setup: ", what),
            Error::WgpuImport(what) => prefixed("wgpu import: ", what),
            Error::NotAttached => "no render context is attached".to_owned(),
        }
    }

    /// The raw `mpv_error` code and diagnostic text that the failure is
    /// reported with, where `generic` is mpv's text for
    /// [`MPV_ERROR_GENERIC`].
    pub fn describe(self, generic: &String) -> (r: (i32, String))
        ensures
            r.0 == code_of(self),
            r.1 == text_of(self, *generic),
    {
        match self {
            Error::Mpv(MpvError { code: Some(code), text }) => (code, text),
            _ => (MPV_ERROR_GENERIC, generic.clone()),
        }
    }
}

/// `head` followed by `tail`.
pub fn prefixed(head: &str, tail: &String) -> (r: String)
    ensures
        r@ == head@ + tail@,
{
    let mut out = head.to_owned();
    out.append(tail.as_str());
    out
}

} // verus!
