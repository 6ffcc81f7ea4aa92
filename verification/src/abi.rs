//! Rules of the flat C ABI: status codes, the versioned-struct size handshake,
//! engine ids and the mapping of library errors onto status codes.

use vstd::prelude::*;
use crate::engine::{Engine, all_engines};
use crate::error::Error;
use crate::last_error::{LastError, append_bytes, append_decimal, c_string, decimal};
use crate::mc::McConfig;
use crate::option::OptionType;
use crate::tree::TreeConfig;
use vstd::string::StringSliceAdditionalSpecFns;

verus! {

/// Version of the struct layout. Bumped only on a breaking change.
pub const OPT_ABI_VERSION: u32 = 1;

/// Status returned by every exported function (0 is success).
#[derive(Clone, Copy, Debug, PartialEq, Eq, Structural)]
pub enum OptStatus {
    /// Success.
    Success,
    Domain,
    NoSolution,
    Unsupported,
    NotConverged,
    NullPointer,
    BadSize,
    BufferTooSmall,
    Panic,
}

impl OptStatus {
    pub open spec fn spec_code(self) -> i32 {
        match self {
            OptStatus::Success => 0,
            OptStatus::Domain => 1,
            OptStatus::NoSolution => 2,
            OptStatus::Unsupported => 3,
            OptStatus::NotConverged => 4,
            OptStatus::NullPointer => 5,
            OptStatus::BadSize => 6,
            OptStatus::BufferTooSmall => 7,
            OptStatus::Panic => 8,
        }
    }

    /// The integer that crosses the boundary.
    pub fn code(self) -> (c: i32)
        ensures
            c == self.spec_code(),
    {
        match self {
            OptStatus::Success => 0,
            OptStatus::Domain => 1,
            OptStatus::NoSolution => 2,
            OptStatus::Unsupported => 3,
            OptStatus::NotConverged => 4,
            OptStatus::NullPointer => 5,
            OptStatus::BadSize => 6,
            OptStatus::BufferTooSmall => 7,
            OptStatus::Panic => 8,
        }
    }

    pub open spec fn spec_from_error(err: Error) -> OptStatus {
        match err {
            Error::Domain(_) => OptStatus::Domain,
            Error::NoSolution(_) => OptStatus::NoSolution,
            Error::Unsupported { .. } => OptStatus::Unsupported,
            Error::NotConverged { .. } => OptStatus::NotConverged,
        }
    }

    /// Status that reports a library error.
    pub fn from_error(err: &Error) -> (s: OptStatus)
        ensures
            s == OptStatus::spec_from_error(*err),
    {
        match err {
            Error::Domain(_) => OptStatus::Domain,
            Error::NoSolution(_) => OptStatus::NoSolution,
            Error::Unsupported { .. } => OptStatus::Unsupported,
            Error::NotConverged { .. } => OptStatus::NotConverged,
        }
    }
}

/// Payoff kind as the C caller writes it.
#[derive(Clone, Copy, Debug, PartialEq, Eq, Structural)]
pub enum OptKind {
    Call,
    Put,
}

impl OptKind {
    pub open spec fn spec_code(self) -> i32 {
        match self {
            OptKind::Call => 0,
            OptKind::Put => 1,
        }
    }

    pub fn code(self) -> (c: i32)
        ensures
            c == self.spec_code(),
    {
        match self {
            OptKind::Call => 0,
            OptKind::Put => 1,
        }
    }

    /// The kind with the given ABI code, if any.
    pub fn from_code(c: i32) -> (k: Option<OptKind>)
        ensures
            match k {
                Some(k) => k.spec_code() == c,
                None => !(0 <= c <= 1),
            },
    {
        if c == 0 {
            Some(OptKind::Call)
        } else if c == 1 {
            Some(OptKind::Put)
        } else {
            None
        }
    }

    pub open spec fn spec_option_type(self) -> OptionType {
        match self {
            OptKind::Call => OptionType::Call,
            OptKind::Put => OptionType::Put,
        }
    }

    /// The payoff kind this ABI value denotes.
    pub fn option_type(self) -> (t: OptionType)
        ensures
            t == self.spec_option_type(),
    {
        match self {
            OptKind::Call => OptionType::Call,
            OptKind::Put => OptionType::Put,
        }
    }
}

/// Exercise style as the C caller writes it.
#[derive(Clone, Copy, Debug, PartialEq, Eq, Structural)]
pub enum OptStyle {
    European,
    American,
    Bermudan,
}

impl OptStyle {
    pub open spec fn spec_code(self) -> i32 {
        match self {
            OptStyle::European => 0,
            OptStyle::American => 1,
            OptStyle::Bermudan => 2,
        }
    }

    pub fn code(self) -> (c: i32)
        ensures
            c == self.spec_code(),
    {
        match self {
            OptStyle::European => 0,
            OptStyle::American => 1,
            OptStyle::Bermudan => 2,
        }
    }

    /// The style with the given ABI code, if any.
    pub fn from_code(c: i32) -> (s: Option<OptStyle>)
        ensures
            match s {
                Some(s) => s.spec_code() == c,
                None => !(0 <= c <= 2),
            },
    {
        if c == 0 {
            Some(OptStyle::European)
        } else if c == 1 {
            Some(OptStyle::American)
        } else if c == 2 {
            Some(OptStyle::Bermudan)
        } else {
            None
        }
    }

    pub open spec fn spec_is_early_exercise(self) -> bool {
        self != OptStyle::European
    }

    /// Any style but European allows exercise before expiry.
    pub fn is_early_exercise(self) -> (b: bool)
        ensures
            b == self.spec_is_early_exercise(),
    {
        !matches!(self, OptStyle::European)
    }
}

/// Text recorded when a caller pointer is null: `null pointer for {what}`.
pub open spec fn null_pointer_message(what: &str) -> Seq<u8> {
    "null pointer for ".spec_bytes() + what.spec_bytes()
}

/// Text recorded for an engine id that names no engine: `unknown engine id {v}`.
pub open spec fn unknown_engine_message(v: i32) -> Seq<u8> {
    "unknown engine id ".spec_bytes() + decimal(v as int)
}

/// Null-check of the caller pointer named `what`. A null pointer is reported
/// as a status and described in the error channel; otherwise the channel is
/// left as it was.
pub fn require_non_null(channel: &mut LastError, is_null: bool, what: &str) -> (r: Result<
    (),
    OptStatus,
>)
    ensures
        is_null ==> r == Err::<(), OptStatus>(OptStatus::NullPointer) && final(channel)@ == Some(
            c_string(null_pointer_message(what)),
        ),
        !is_null ==> r == Ok::<(), OptStatus>(()) && final(channel)@ == old(channel)@,
{
    if is_null {
        let mut msg: Vec<u8> = Vec::new();
        append_bytes(&mut msg, "null pointer for ".as_bytes());
        append_bytes(&mut msg, what.as_bytes());
        crate::last_error::set(channel, msg.as_slice());
        Err(OptStatus::NullPointer)
    } else {
        Ok(())
    }
}

/// Engine with the given ABI id. An id outside `[0, 6)` is a domain error,
/// described in the error channel; a known id leaves the channel as it was.
pub fn engine_from_i32(channel: &mut LastError, v: i32) -> (r: Result<Engine, OptStatus>)
    ensures
        match r {
            Ok(e) => e.spec_id() == v && e == all_engines()[v as int] && final(channel)@ == old(
                channel,
            )@,
            Err(s) => s == OptStatus::Domain && !(0 <= v < 6) && final(channel)@ == Some(
                c_string(unknown_engine_message(v)),
            ),
        },
{
    match Engine::from_id(v) {
        Some(e) => {
            proof {
                crate::engine::lemma_engine_ids(e, e);
            }
            Ok(e)
        },
        None => {
            let mut msg: Vec<u8> = Vec::new();
            append_bytes(&mut msg, "unknown engine id ".as_bytes());
            append_decimal(&mut msg, v);
            crate::last_error::set(channel, msg.as_slice());
            Err(OptStatus::Domain)
        },
    }
}

/// The integer settings of a pricer that a caller may change, each with a
/// lower bound.
#[derive(Clone, Copy, Debug, PartialEq, Eq, Structural)]
pub enum CountSetting {
    TreeSteps,
    FdSpaceSteps,
    FdTimeSteps,
    McPaths,
    McSteps,
    CosTerms,
    MaxRefinements,
}

impl CountSetting {
    /// Smallest accepted value.
    pub open spec fn spec_minimum(self) -> usize {
        match self {
            CountSetting::TreeSteps => 3,
            CountSetting::FdSpaceSteps => 4,
            CountSetting::FdTimeSteps => 3,
            CountSetting::McPaths => 2,
            CountSetting::McSteps => 1,
            CountSetting::CosTerms => 8,
            CountSetting::MaxRefinements => 1,
        }
    }

    pub fn minimum(self) -> (m: usize)
        ensures
            m == self.spec_minimum(),
    {
        match self {
            CountSetting::TreeSteps => 3,
            CountSetting::FdSpaceSteps => 4,
            CountSetting::FdTimeSteps => 3,
            CountSetting::McPaths => 2,
            CountSetting::McSteps => 1,
            CountSetting::CosTerms => 8,
            CountSetting::MaxRefinements => 1,
        }
    }

    /// Text recorded when a value below the minimum is refused.
    pub open spec fn spec_message(self) -> &'static str {
        match self {
            CountSetting::TreeSteps => "tree steps must be at least 3",
            CountSetting::FdSpaceSteps => "fd space steps must be at least 4",
            CountSetting::FdTimeSteps => "fd time steps must be at least 3",
            CountSetting::McPaths => "mc paths must be at least 2",
            CountSetting::McSteps => "mc steps must be at least 1",
            CountSetting::CosTerms => "cos terms must be at least 8",
            CountSetting::MaxRefinements => "max refinements must be at least 1",
        }
    }

    pub fn message(self) -> (m: &'static str)
        ensures
            m == self.spec_message(),
    {
        match self {
            CountSetting::TreeSteps => "tree steps must be at least 3",
            CountSetting::FdSpaceSteps => "fd space steps must be at least 4",
            CountSetting::FdTimeSteps => "fd time steps must be at least 3",
            CountSetting::McPaths => "mc paths must be at least 2",
            CountSetting::McSteps => "mc steps must be at least 1",
            CountSetting::CosTerms => "cos terms must be at least 8",
            CountSetting::MaxRefinements => "max refinements must be at least 1",
        }
    }
}

/// Validation of a new value for an integer setting: below the minimum it is a
/// domain error, described in the error channel; otherwise the channel is left
/// as it was.
pub fn check_count_setting(channel: &mut LastError, setting: CountSetting, value: usize) -> (r:
    Result<(), OptStatus>)
    ensures
        value >= setting.spec_minimum() ==> r == Ok::<(), OptStatus>(()) && final(channel)@ == old(
            channel,
        )@,
        value < setting.spec_minimum() ==> r == Err::<(), OptStatus>(OptStatus::Domain)
            && final(channel)@ == Some(c_string(setting.spec_message().spec_bytes())),
{
    if value < setting.minimum() {
        crate::last_error::set(channel, setting.message().as_bytes());
        Err(OptStatus::Domain)
    } else {
        Ok(())
    }
}

/// A declared struct size covers every field this build reads.
pub open spec fn size_accepted(declared: u32, required: usize) -> bool {
    required <= declared
}

/// Size handshake of a versioned struct: the caller's declared size must cover
/// every field this build reads. Larger sizes come from newer callers and are
/// accepted; the trailing fields are skipped.
pub fn size_handshake(declared: u32, required: usize, message: &'static str) -> (r: Result<
    (),
    Error,
>)
    ensures
        r == (if size_accepted(declared, required) {
            Ok::<(), Error>(())
        } else {
            Err::<(), Error>(Error::Domain(message))
        }),
{
    if (declared as usize) < required {
        Err(Error::Domain(message))
    } else {
        Ok(())
    }
}

/// A library error crosses the boundary as the status whose code is the
/// error's own stable code.
pub proof fn lemma_status_code_matches_error_code(err: Error)
    ensures
        OptStatus::spec_from_error(err).spec_code() == err.spec_code(),
        OptStatus::spec_from_error(err) != OptStatus::Success,
{
}

/// Status codes are distinct, so a code identifies its status.
pub proof fn lemma_status_codes_distinct(a: OptStatus, b: OptStatus)
    ensures
        0 <= a.spec_code() <= 8,
        a.spec_code() == b.spec_code() ==> a == b,
{
}

/// Backward compatibility of the size handshake: a size that is accepted
/// stays accepted when a newer caller declares a larger struct.
pub proof fn lemma_size_handshake_monotone(declared: u32, larger: u32, required: usize)
    requires
        size_accepted(declared, required),
        declared <= larger,
    ensures
        size_accepted(larger, required),
{
}

/// The setters accept exactly what the engines accept: a tree step count or a
/// Monte Carlo path count passes its setter exactly when the lattice or the
/// Monte Carlo engine would accept it. Every minimum is a single digit and is
/// the number its refusal message ends with.
pub proof fn lemma_setting_limits(setting: CountSetting, v: usize, mc: McConfig)
    ensures
        v >= CountSetting::TreeSteps.spec_minimum() <==> (TreeConfig { steps: v }).spec_valid(),
        v >= CountSetting::McPaths.spec_minimum() <==> (McConfig { paths: v, ..mc }).spec_valid(),
        1 <= setting.spec_minimum() <= 9,
        setting.spec_message().spec_bytes().len() > 0,
        setting.spec_message().spec_bytes().last() == 48 + setting.spec_minimum(),
{
    reveal_strlit("tree steps must be at least 3");
    reveal_strlit("fd space steps must be at least 4");
    reveal_strlit("fd time steps must be at least 3");
    reveal_strlit("mc paths must be at least 2");
    reveal_strlit("mc steps must be at least 1");
    reveal_strlit("cos terms must be at least 8");
    reveal_strlit("max refinements must be at least 1");
    let m = setting.spec_message();
    assert(vstd::utf8::is_ascii_chars(m@));
    vstd::utf8::is_ascii_chars_encode_utf8(m@);
    let n = m@.len() - 1;
    assert(m@[n] as u8 == m.spec_bytes()[n]);
}

} // verus!
