//! Errors of management canister calls.
use vstd::prelude::*;
use vstd::string::StringExecFns;

verus! {

/// The code with which the system rejects an inter-canister call.
#[derive(Debug, Clone, Copy, PartialEq, Eq, Structural)]
pub enum RejectionCode {
    NoError,
    SysFatal,
    SysTransient,
    DestinationInvalid,
    CanisterReject,
    CanisterError,
    Unknown,
}

/// The reason for the management call failure.
#[derive(Debug, Clone, PartialEq, Eq)]
pub enum Reason {
    /// Failed to send a signature request because the local output queue is
    /// full.
    QueueIsFull,
    /// The canister does not have enough cycles to submit the request.
    OutOfCycles,
    /// The management canister rejected the signature request (not enough
    /// cycles, the ECDSA subnet is overloaded, etc.).
    Rejected(String),
}

/// The reason that a rejection with the given code and message stands for.
pub open spec fn spec_reason_from_reject(code: RejectionCode, message: String) -> Reason {
    match code {
        RejectionCode::SysTransient => Reason::QueueIsFull,
        RejectionCode::CanisterError => Reason::OutOfCycles,
        RejectionCode::CanisterReject => Reason::Rejected(message),
        _ => Reason::QueueIsFull,
    }
}

/// The text that describes a failure reason.
pub open spec fn spec_reason_message(reason: Reason) -> Seq<char> {
    match reason {
        Reason::QueueIsFull => "the canister queue is full"@,
        Reason::OutOfCycles => "the canister is out of cycles"@,
        Reason::Rejected(msg) => "the management canister rejected the call: "@ + msg@,
    }
}

/// The text that describes a failed call of `method` for `reason`.
pub open spec fn spec_call_error_message(method: Seq<char>, reason: Reason) -> Seq<char> {
    "management call '"@ + method + "' failed: "@ + spec_reason_message(reason)
}

/// A rejection is classified by its code alone, for every message:
/// `CanisterReject` keeps the message unchanged in `Rejected`,
/// `CanisterError` means the canister is out of cycles, and every other code
/// (`SysTransient` among them) is taken for a full queue.
pub proof fn lemma_reason_from_reject_by_code(code: RejectionCode, m1: String, m2: String)
    ensures
        spec_reason_from_reject(RejectionCode::CanisterReject, m1) == Reason::Rejected(m1),
        spec_reason_from_reject(RejectionCode::SysTransient, m1) == Reason::QueueIsFull,
        spec_reason_from_reject(RejectionCode::CanisterError, m1) == Reason::OutOfCycles,
        code != RejectionCode::CanisterReject && code != RejectionCode::CanisterError
            ==> spec_reason_from_reject(code, m1) == Reason::QueueIsFull,
        code != RejectionCode::CanisterReject ==> spec_reason_from_reject(code, m1)
            == spec_reason_from_reject(code, m2),
{
}

/// The texts of the reasons, variant by variant.
pub proof fn lemma_reason_messages(m: String)
    ensures
        spec_reason_message(Reason::QueueIsFull) == "the canister queue is full"@,
        spec_reason_message(Reason::OutOfCycles) == "the canister is out of cycles"@,
        spec_reason_message(Reason::Rejected(m)) == "the management canister rejected the call: "@
            + m@,
{
}

/// Distinct reasons are described by distinct texts: two reasons with the
/// same text are the same variant, and for `Rejected` carry the same message.
pub proof fn lemma_reason_message_distinguishes(r1: Reason, r2: Reason)
    requires
        spec_reason_message(r1) == spec_reason_message(r2),
    ensures
        match (r1, r2) {
            (Reason::QueueIsFull, Reason::QueueIsFull) => true,
            (Reason::OutOfCycles, Reason::OutOfCycles) => true,
            (Reason::Rejected(m1), Reason::Rejected(m2)) => m1@ == m2@,
            _ => false,
        },
{
    reveal_strlit("the canister queue is full");
    reveal_strlit("the canister is out of cycles");
    reveal_strlit("the management canister rejected the call: ");
    let queue = "the canister queue is full"@;
    let cycles = "the canister is out of cycles"@;
    let prefix = "the management canister rejected the call: "@;
    assert(queue.len() == 26);
    assert(cycles.len() == 29);
    assert(prefix.len() == 43);
    match (r1, r2) {
        (Reason::Rejected(m1), Reason::Rejected(m2)) => {
            assert(m1@ =~= (prefix + m1@).skip(43));
            assert(m2@ =~= (prefix + m2@).skip(43));
        },
        (Reason::Rejected(m1), _) => {
            assert((prefix + m1@).len() >= 43);
        },
        (_, Reason::Rejected(m2)) => {
            assert((prefix + m2@).len() >= 43);
        },
        _ => {},
    }
}

impl Reason {
    /// Classifies a rejection of a management call.
    pub fn from_reject(reject_code: RejectionCode, reject_message: String) -> (res: Reason)
        ensures
            res == spec_reason_from_reject(reject_code, reject_message),
            reject_code == RejectionCode::CanisterReject ==> res == Reason::Rejected(reject_message),
            reject_code == RejectionCode::SysTransient ==> res == Reason::QueueIsFull,
            reject_code == RejectionCode::CanisterError ==> res == Reason::OutOfCycles,
            reject_code != RejectionCode::CanisterReject && reject_code
                != RejectionCode::CanisterError ==> res == Reason::QueueIsFull,
    {
        match reject_code {
            RejectionCode::SysTransient => Reason::QueueIsFull,
            RejectionCode::CanisterError => Reason::OutOfCycles,
            RejectionCode::CanisterReject => Reason::Rejected(reject_message),
            _ => Reason::QueueIsFull,
        }
    }

    /// The text that describes this reason.
    pub fn to_string(&self) -> (res: String)
        ensures
            res@ == spec_reason_message(*self),
            *self == Reason::QueueIsFull ==> res@ == "the canister queue is full"@,
            *self == Reason::OutOfCycles ==> res@ == "the canister is out of cycles"@,
            self matches Reason::Rejected(m) ==> res@ == "the management canister rejected the call: "@ + m@,
    {
        match self {
            Reason::QueueIsFull => String::from_str("the canister queue is full"),
            Reason::OutOfCycles => String::from_str("the canister is out of cycles"),
            Reason::Rejected(msg) => {
                let mut res = String::from_str("the management canister rejected the call: ");
                res.append(msg.as_str());
                res
            },
        }
    }
}

/// Represents an error from a management canister call, such as
/// `sign_with_ecdsa` or `bitcoin_send_transaction`.
#[derive(Debug, Clone, PartialEq, Eq)]
pub struct CallError {
    method: String,
    reason: Reason,
}

impl CallError {
    /// The name of the method whose call failed.
    pub closed spec fn spec_method(&self) -> Seq<char> {
        self.method@
    }

    /// The reason of the failure.
    pub closed spec fn spec_reason(&self) -> Reason {
        self.reason
    }

    /// The error of a call of `method` that failed for `reason`.
    pub fn new(method: &str, reason: Reason) -> (res: CallError)
        ensures
            res.spec_method() == method@,
            res.spec_reason() == reason,
    {
        CallError { method: method.to_owned(), reason }
    }

    /// Returns the name of the method that resulted in this error.
    pub fn method(&self) -> (res: &str)
        ensures
            res@ == self.spec_method(),
    {
        self.method.as_str()
    }

    /// Returns the failure reason.
    pub fn reason(&self) -> (res: &Reason)
        ensures
            *res == self.spec_reason(),
    {
        &self.reason
    }

    /// The text that describes this error.
    pub fn to_string(&self) -> (res: String)
        ensures
            res@ == spec_call_error_message(self.spec_method(), self.spec_reason()),
            res@ == "management call '"@ + self.spec_method() + "' failed: "@
                + spec_reason_message(self.spec_reason()),
    {
        let mut res = String::from_str("management call '");
        res.append(self.method.as_str());
        res.append("' failed: ");
        let reason = self.reason.to_string();
        res.append(reason.as_str());
        res
    }
}

/// The outcome of a call of `method` on the management canister, given
/// what the system replied: the decoded output, or the rejection code and
/// message.
pub fn call_outcome<O>(method: &str, reply: Result<O, (RejectionCode, String)>) -> (res: Result<
    O,
    CallError,
>)
    ensures
        match reply {
            Ok(output) => res == Ok::<O, CallError>(output),
            Err((code, msg)) => match res {
                Ok(_) => false,
                Err(e) => e.spec_method() == method@ && e.spec_reason()
                    == spec_reason_from_reject(code, msg),
            },
        },
        match reply {
            Err((code, msg)) => {
                &&& code == RejectionCode::CanisterReject ==> (res matches Err(e)
                    && e.spec_reason() == Reason::Rejected(msg))
                &&& code == RejectionCode::CanisterError ==> (res matches Err(e)
                    && e.spec_reason() == Reason::OutOfCycles)
                &&& code != RejectionCode::CanisterReject && code != RejectionCode::CanisterError
                    ==> (res matches Err(e) && e.spec_reason() == Reason::QueueIsFull)
            },
            Ok(_) => true,
        },
{
    match reply {
        Ok(output) => Ok(output),
        Err((code, msg)) => Err(CallError::new(method, Reason::from_reject(code, msg))),
    }
}

} // verus!
