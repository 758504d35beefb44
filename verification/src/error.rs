//! The fault barrier: what a caught backend fault becomes, and how it reads.

use vstd::prelude::*;
use vstd::string::StringExecFns;
use vstd::string::StringSliceAdditionalSpecFns;
use vstd::utf8::decode_utf8;
use vstd::utf8::valid_utf8;

verus! {

/// A fault object caught at the barrier, reduced to what this layer reads
/// from it.
pub struct Fault {
    /// Whether the object is an instance of the structured exception kind,
    /// the one that carries a reason string.
    pub structured: bool,
    /// The bytes of the reason string. Read only when `structured` is set.
    pub reason: Vec<u8>,
}

/// A fault as contracts speak of it.
pub struct FaultView {
    /// Whether the fault is of the structured kind.
    pub structured: bool,
    /// The bytes of its reason string.
    pub reason: Seq<u8>,
}

impl View for Fault {
    type V = FaultView;

    open spec fn view(&self) -> FaultView {
        FaultView { structured: self.structured, reason: self.reason@ }
    }
}

/// Whether a fault can be rendered: an opaque one always can, a structured
/// one when its reason is well-formed UTF-8.
pub open spec fn renderable(fault: FaultView) -> bool {
    fault.structured ==> valid_utf8(fault.reason)
}

/// The text that stands for the fault where it is described: the reason of
/// a structured fault, nothing for an opaque one.
pub open spec fn reason_text(fault: FaultView) -> Seq<char> {
    decode_utf8(fault.reason)
}

/// The message of a fault for display: the reason behind a fixed phrase for
/// a structured fault, a fixed sentence for an opaque one.
pub open spec fn display_text(fault: FaultView) -> Seq<char> {
    if fault.structured {
        "Caught exception: "@ + reason_text(fault)
    } else {
        "An unknown exception was caught"@
    }
}

/// The message of a fault for debugging: inside the type's name, the reason
/// of a structured fault or a marker for an opaque one.
pub open spec fn debug_text(fault: FaultView) -> Seq<char> {
    if fault.structured {
        "Error("@ + reason_text(fault) + ")"@
    } else {
        "Error("@ + "<unknown>"@ + ")"@
    }
}

/// `core::str::from_utf8`: the bytes read as a string slice when they are
/// well-formed UTF-8, and nothing otherwise. The slice is made of the very
/// bytes given.
#[verifier::external_body]
fn utf8_text(bytes: &[u8]) -> (r: Option<&str>)
    ensures
        r is Some <==> valid_utf8(bytes@),
        r matches Some(s) ==> s.spec_bytes() == bytes@,
{
    match core::str::from_utf8(bytes) {
        Ok(s) => Some(s),
        Err(_) => None,
    }
}

/// An error resulting from normal operation of one of the drawing functions.
///
/// It keeps the caught fault and the class it was put in when it was caught.
pub struct Error {
    exception: Fault,
    is_nsexception: bool,
}

impl View for Error {
    type V = FaultView;

    /// The caught fault, under the class it was given at the barrier.
    closed spec fn view(&self) -> FaultView {
        FaultView { structured: self.is_nsexception, reason: self.exception.reason@ }
    }
}

impl Error {
    /// Wraps a caught fault, classifying it once: structured if the fault is
    /// of the kind that carries a reason, opaque otherwise.
    #[inline]
    pub fn from_exception(exception: Fault) -> (r: Self)
        ensures
            r@ == exception@,
    {
        let is_nsexception = exception.structured;
        Error { exception, is_nsexception }
    }

    /// Whether the fault was classified as structured.
    #[inline]
    pub fn is_nsexception(&self) -> (b: bool)
        ensures
            b == self@.structured,
    {
        self.is_nsexception
    }

    /// Tells whether the error can be rendered.
    pub fn is_renderable(&self) -> (b: bool)
        ensures
            b == renderable(self@),
    {
        if self.is_nsexception {
            utf8_text(self.exception.reason.as_slice()).is_some()
        } else {
            true
        }
    }

    /// The reason of a structured fault, read as text.
    fn reason(&self) -> (s: &str)
        requires
            valid_utf8(self@.reason),
        ensures
            s@ == reason_text(self@),
    {
        broadcast use vstd::utf8::encode_utf8_decode_utf8;

        match utf8_text(self.exception.reason.as_slice()) {
            Some(s) => s,
            None => vstd::pervasive::unreached(),
        }
    }

    /// The message for display: `Caught exception: ` and the reason for a
    /// structured fault, `An unknown exception was caught` for an opaque one.
    pub fn to_string(&self) -> (r: String)
        requires
            renderable(self@),
        ensures
            r@ == display_text(self@),
    {
        if self.is_nsexception {
            let desc = self.reason();
            let mut out = String::from_str("Caught exception: ");
            out.append(desc);
            out
        } else {
            String::from_str("An unknown exception was caught")
        }
    }

    /// The message for debugging: `Error(` and `)` around the reason of a
    /// structured fault, around `<unknown>` for an opaque one.
    pub fn debug_string(&self) -> (r: String)
        requires
            renderable(self@),
        ensures
            r@ == debug_text(self@),
    {
        let mut out = String::from_str("Error(");
        if self.is_nsexception {
            out.append(self.reason());
        } else {
            out.append("<unknown>");
        }
        out.append(")");
        out
    }
}

/// What the barrier makes of the outcome of a guarded call: a value passes
/// unchanged, a fault becomes the error that holds it.
pub open spec fn barrier<T>(outcome: Result<T, Fault>, r: Result<T, Error>) -> bool {
    match outcome {
        Ok(v) => r == Ok::<T, Error>(v),
        Err(fault) => r matches Err(e) && e@ == fault@,
    }
}

/// The barrier itself. The outcome of a guarded call comes in, with a fault
/// that was raised during the call as `Err`; the value passes through, the
/// fault becomes an `Error`. Nothing escapes and nothing is lost.
#[inline]
pub fn objc_try<T>(outcome: Result<T, Fault>) -> (r: Result<T, Error>)
    ensures
        barrier(outcome, r),
{
    match outcome {
        Ok(v) => Ok(v),
        Err(fault) => Err(Error::from_exception(fault)),
    }
}

} // verus!
