//! The engine handle's lifecycle, and the requests that may cross to the
//! native engine.
use vstd::prelude::*;

use crate::error::MpvError;
use crate::text::has_nul;

verus! {

/// Where an engine handle stands. `Destroyed` is final.
#[derive(Debug, Clone, Copy, PartialEq, Eq, Structural)]
pub enum Lifecycle {
    Created,
    Initialized,
    Destroyed,
}

/// How a property value travels through the engine's typed property calls.
#[derive(Debug, Clone, Copy, PartialEq, Eq, Structural)]
pub enum PropertyFormat {
    Flag,
    Int64,
    Double,
}

/// The engine's numeric code for a property format.
pub open spec fn format_code(f: PropertyFormat) -> i32 {
    match f {
        PropertyFormat::Flag => 3,
        PropertyFormat::Int64 => 4,
        PropertyFormat::Double => 5,
    }
}

impl PropertyFormat {
    /// The code that the engine's property calls take for this format.
    pub fn code(&self) -> (r: i32)
        ensures
            r == format_code(*self),
    {
        match self {
            PropertyFormat::Flag => 3,
            PropertyFormat::Int64 => 4,
            PropertyFormat::Double => 5,
        }
    }
}

/// One call into the native engine, with its arguments.
#[derive(Debug)]
pub enum Request {
    /// Set an option before or after initialization.
    SetOption { name: String, value: String },
    /// Initialize the engine.
    Initialize,
    /// Run a text command.
    Command(String),
    /// Read a property as text; the engine allocates the text.
    GetString(String),
    /// Read a property in a typed format.
    Get { name: String, format: PropertyFormat },
    /// Set an integer property.
    SetInt { name: String, value: i64 },
}

/// The texts that a request hands to the engine as C strings.
pub open spec fn request_texts(req: Request) -> Seq<Seq<char>> {
    match req {
        Request::SetOption { name, value } => seq![name@, value@],
        Request::Initialize => Seq::empty(),
        Request::Command(text) => seq![text@],
        Request::GetString(name) => seq![name@],
        Request::Get { name, .. } => seq![name@],
        Request::SetInt { name, .. } => seq![name@],
    }
}

/// Why a request with the given texts may not be sent in the given state, if
/// it may not: a destroyed handle takes nothing, and no text may hold NUL.
pub open spec fn refusal(state: Lifecycle, texts: Seq<Seq<char>>) -> Option<MpvError> {
    if state == Lifecycle::Destroyed {
        Some(MpvError::UseAfterDestroy)
    } else if exists|i: int| 0 <= i < texts.len() && #[trigger] texts[i].contains('\0') {
        Some(MpvError::StringConversionError)
    } else {
        None
    }
}

/// What becomes of an attempt to send a request with the given texts: the
/// refusal, if there is one, else success.
pub open spec fn gated<T>(state: Lifecycle, texts: Seq<Seq<char>>, r: Result<T, MpvError>) -> bool {
    match refusal(state, texts) {
        Some(e) => r == Err::<T, MpvError>(e),
        None => r is Ok,
    }
}

/// Whether a request that passed `refusal` still comes at a time the handle
/// cannot take it: a command before initialization, or a second
/// initialization. Such a request fails with its own error without reaching
/// the engine.
pub open spec fn untimely(state: Lifecycle, req: Request) -> bool {
    ||| (req is Command && state == Lifecycle::Created)
    ||| (req is Initialize && state == Lifecycle::Initialized)
}

/// What becomes of an attempt to send commands with the given texts: the
/// refusal, if there is one; before initialization, the failure of the first
/// command; else success.
pub open spec fn command_gated<T>(state: Lifecycle, texts: Seq<Seq<char>>, r: Result<T, MpvError>) -> bool {
    match refusal(state, texts) {
        Some(e) => r == Err::<T, MpvError>(e),
        None => if state == Lifecycle::Created {
            (r matches Err(MpvError::CommandError(t)) && t@ == texts[0])
        } else {
            r is Ok
        },
    }
}

/// Whether the engine's status answers the request with success. A flag read
/// fails on a negative status only; every other call succeeds on zero alone.
pub open spec fn status_ok(req: Request, status: i32) -> bool {
    match req {
        Request::Get { format: PropertyFormat::Flag, .. } => status >= 0,
        _ => status == 0,
    }
}

/// The error that reports a failed request.
pub open spec fn failure(req: Request) -> MpvError {
    match req {
        Request::SetOption { name, value } => MpvError::SetOptionError { name, value },
        Request::Initialize => MpvError::InitializationError,
        Request::Command(text) => MpvError::CommandError(text),
        Request::GetString(name) => MpvError::GetPropertyError(name),
        Request::Get { name, .. } => MpvError::GetPropertyError(name),
        Request::SetInt { name, .. } => MpvError::SetPropertyError(name),
    }
}

/// The lifecycle after the engine answered `req` with `status`: a successful
/// initialization of a created handle makes it initialized.
pub open spec fn next_lifecycle(state: Lifecycle, req: Request, status: i32) -> Lifecycle {
    if state == Lifecycle::Created && req is Initialize && status_ok(req, status) {
        Lifecycle::Initialized
    } else {
        state
    }
}

/// The lifecycle state of one engine handle. It lets requests through before they
/// reach the native engine, and reads the engine's answers.
pub struct EngineHandle {
    state: Lifecycle,
}

impl View for EngineHandle {
    type V = Lifecycle;

    closed spec fn view(&self) -> Lifecycle {
        self.state
    }
}

fn failure_of(req: &Request) -> (e: MpvError)
    ensures
        e == failure(*req),
{
    match req {
        Request::SetOption { name, value } => MpvError::SetOptionError {
            name: name.clone(),
            value: value.clone(),
        },
        Request::Initialize => MpvError::InitializationError,
        Request::Command(text) => MpvError::CommandError(text.clone()),
        Request::GetString(name) => MpvError::GetPropertyError(name.clone()),
        Request::Get { name, .. } => MpvError::GetPropertyError(name.clone()),
        Request::SetInt { name, .. } => MpvError::SetPropertyError(name.clone()),
    }
}

fn status_ok_of(req: &Request, status: i32) -> (r: bool)
    ensures
        r == status_ok(*req, status),
{
    match req {
        Request::Get { format: PropertyFormat::Flag, .. } => status >= 0,
        _ => status == 0,
    }
}

impl EngineHandle {
    /// A handle that the engine has just created.
    pub fn new() -> (r: EngineHandle)
        ensures
            r@ == Lifecycle::Created,
    {
        EngineHandle { state: Lifecycle::Created }
    }

    /// Where the handle stands.
    pub fn lifecycle(&self) -> (r: Lifecycle)
        ensures
            r == self@,
    {
        self.state
    }

    /// Lets `req` through to the native engine, or says why it may not go.
    /// Before initialization a command fails without reaching the engine, and
    /// so does a second initialization.
    pub fn permit(&self, req: Request) -> (r: Result<Request, MpvError>)
        ensures
            r == match refusal(self@, request_texts(req)) {
                Some(e) => Err::<Request, MpvError>(e),
                None => if untimely(self@, req) {
                    Err(failure(req))
                } else {
                    Ok(req)
                },
            },
    {
        if self.state == Lifecycle::Destroyed {
            return Err(MpvError::UseAfterDestroy);
        }
        let bad = match &req {
            Request::SetOption { name, value } => {
                let a = has_nul(name.as_str());
                let b = has_nul(value.as_str());
                proof {
                    let t = request_texts(req);
                    assert(t[0] == name@ && t[1] == value@);
                    if !a && !b {
                        assert forall|i: int| 0 <= i < t.len() implies !t[i].contains('\0') by {
                            assert(i == 0 || i == 1);
                        }
                    }
                }
                a || b
            },
            Request::Initialize => false,
            Request::Command(text) => {
                let a = has_nul(text.as_str());
                assert(request_texts(req)[0] == text@);
                a
            },
            Request::GetString(name) => {
                let a = has_nul(name.as_str());
                assert(request_texts(req)[0] == name@);
                a
            },
            Request::Get { name, .. } => {
                let a = has_nul(name.as_str());
                assert(request_texts(req)[0] == name@);
                a
            },
            Request::SetInt { name, .. } => {
                let a = has_nul(name.as_str());
                assert(request_texts(req)[0] == name@);
                a
            },
        };
        if bad {
            return Err(MpvError::StringConversionError);
        }
        let too_early = match &req {
            Request::Command(_) => self.state == Lifecycle::Created,
            Request::Initialize => self.state == Lifecycle::Initialized,
            _ => false,
        };
        if too_early {
            Err(failure_of(&req))
        } else {
            Ok(req)
        }
    }

    /// Reads the status with which the engine answered `req`.
    pub fn settle(&mut self, req: &Request, status: i32) -> (r: Result<(), MpvError>)
        ensures
            r == if status_ok(*req, status) {
                Ok::<(), MpvError>(())
            } else {
                Err(failure(*req))
            },
            final(self)@ == next_lifecycle(old(self)@, *req, status),
    {
        if status_ok_of(req, status) {
            if let Request::Initialize = req {
                if self.state == Lifecycle::Created {
                    self.state = Lifecycle::Initialized;
                }
            }
            Ok(())
        } else {
            Err(failure_of(req))
        }
    }

    /// Reads the engine's answer to a text read: the text, or nothing where
    /// the engine reported none.
    pub fn settle_text(&self, req: &Request, reply: Option<String>) -> (r: Result<String, MpvError>)
        ensures
            r == match reply {
                Some(t) => Ok::<String, MpvError>(t),
                None => Err(failure(*req)),
            },
    {
        match reply {
            Some(t) => Ok(t),
            None => Err(failure_of(req)),
        }
    }

    /// Reads the engine's answer to an integer read.
    pub fn settle_int(&self, req: &Request, status: i32, value: i64) -> (r: Result<i64, MpvError>)
        ensures
            r == if status_ok(*req, status) {
                Ok::<i64, MpvError>(value)
            } else {
                Err(failure(*req))
            },
    {
        if status_ok_of(req, status) {
            Ok(value)
        } else {
            Err(failure_of(req))
        }
    }

    /// Reads the engine's answer to a flag read; any nonzero flag is true.
    pub fn settle_flag(&self, req: &Request, status: i32, value: i32) -> (r: Result<bool, MpvError>)
        ensures
            r == if status_ok(*req, status) {
                Ok::<bool, MpvError>(value != 0)
            } else {
                Err(failure(*req))
            },
    {
        if status_ok_of(req, status) {
            Ok(value != 0)
        } else {
            Err(failure_of(req))
        }
    }

    /// Marks the handle destroyed. The result says whether the native destroy
    /// call is owed now: true the first time only.
    pub fn destroy(&mut self) -> (first: bool)
        ensures
            first == (old(self)@ != Lifecycle::Destroyed),
            final(self)@ == Lifecycle::Destroyed,
    {
        let first = self.state != Lifecycle::Destroyed;
        self.state = Lifecycle::Destroyed;
        first
    }
}

/// Once a handle is destroyed, every operation whose outcome is gated by it
/// is refused with `UseAfterDestroy`, whatever texts it would have sent, so
/// no request reaches the engine.
pub proof fn lemma_no_use_after_destroy<T>(texts: Seq<Seq<char>>, r: Result<T, MpvError>)
    requires
        gated(Lifecycle::Destroyed, texts, r) || command_gated(Lifecycle::Destroyed, texts, r),
    ensures
        r == Err::<T, MpvError>(MpvError::UseAfterDestroy),
{
}

} // verus!
