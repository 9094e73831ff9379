//! The `threads` setting: what a value given for it in the configuration file
//! means, and the errors it can raise.
use vstd::prelude::*;
use vstd::string::StringExecFns;

use crate::outside::cpu_count;

verus! {

/// The value given for `threads`, as far as its meaning depends on it.
#[derive(Debug)]
pub enum ThreadsValue {
    /// A number that is a non-negative integer fitting in 64 bits.
    Integer(u64),
    /// Any other number (negative, fractional, too large).
    OtherNumber,
    /// A string.
    Text(String),
    /// Anything else (a boolean, null, a list, a mapping).
    Other,
}

/// Why a `threads` value was refused.
#[derive(Debug)]
pub enum ThreadsError {
    /// The integer 0.
    Zero,
    /// A number that is not a non-negative integer.
    NotPositiveInteger,
    /// A string other than `nproc`; it holds the string.
    InvalidString(String),
    /// Neither a number nor a string.
    WrongType,
}

/// The keyword that asks for one thread per available CPU.
pub open spec fn nproc_keyword() -> Seq<char> {
    "nproc"@
}

/// What a `threads` value stands for, given the number of available CPUs.
pub open spec fn threads_of(value: ThreadsValue, cpus: usize) -> Result<usize, ThreadsError> {
    match value {
        ThreadsValue::Integer(n) => if n == 0 {
            Err(ThreadsError::Zero)
        } else {
            Ok(n as usize)
        },
        ThreadsValue::OtherNumber => Err(ThreadsError::NotPositiveInteger),
        ThreadsValue::Text(s) => if s@ == nproc_keyword() {
            Ok(cpus)
        } else {
            Err(ThreadsError::InvalidString(s))
        },
        ThreadsValue::Other => Err(ThreadsError::WrongType),
    }
}

/// Whether `value` is the string `nproc`.
pub open spec fn is_nproc(value: ThreadsValue) -> bool {
    value matches ThreadsValue::Text(s) && s@ == nproc_keyword()
}

fn text_is_nproc(s: &String) -> (r: bool)
    ensures
        r == (s@ == nproc_keyword()),
{
    let keyword = "nproc".to_string();
    *s == keyword
}

/// Interprets a `threads` value when `cpus` CPUs are available.
pub fn threads_from_value(value: ThreadsValue, cpus: usize) -> (r: Result<usize, ThreadsError>)
    ensures
        r == threads_of(value, cpus),
{
    match value {
        ThreadsValue::Integer(n) => if n == 0 {
            Err(ThreadsError::Zero)
        } else {
            Ok(n as usize)
        },
        ThreadsValue::OtherNumber => Err(ThreadsError::NotPositiveInteger),
        ThreadsValue::Text(s) => if text_is_nproc(&s) {
            Ok(cpus)
        } else {
            Err(ThreadsError::InvalidString(s))
        },
        ThreadsValue::Other => Err(ThreadsError::WrongType),
    }
}

/// Interprets a `threads` value, asking for the CPU count only when the value
/// is `nproc`.
pub fn deserialize_threads_value(value: ThreadsValue) -> (r: Result<usize, ThreadsError>)
    ensures
        exists|cpus: usize| cpus >= 1 && r == #[trigger] threads_of(value, cpus),
        is_nproc(value) ==> (r matches Ok(n) && n >= 1),
{
    let cpus: usize = if let ThreadsValue::Text(s) = &value {
        if text_is_nproc(s) {
            cpu_count()
        } else {
            1
        }
    } else {
        1
    };
    let r = threads_from_value(value, cpus);
    assert(r == threads_of(value, cpus));
    r
}

/// A thread count the configuration file is allowed to set is never zero:
/// a positive integer stands for itself, and `nproc` for the (positive) CPU
/// count. An integer above `usize::MAX` is left out: it does not fit the
/// thread count and is cut down to its low bits.
pub proof fn accepted_thread_count_is_positive(value: ThreadsValue, cpus: usize)
    requires
        cpus >= 1,
        value matches ThreadsValue::Integer(n) ==> n <= usize::MAX,
    ensures
        threads_of(value, cpus) matches Ok(t) ==> t > 0,
        value is Integer && value->Integer_0 > 0 ==> threads_of(value, cpus) == Ok::<usize, ThreadsError>(
            value->Integer_0 as usize,
        ),
{
}

impl ThreadsError {
    /// The message this error is reported with.
    pub open spec fn spec_message(&self) -> Seq<char> {
        match self {
            ThreadsError::Zero => "threads must be greater than 0"@,
            ThreadsError::NotPositiveInteger => "threads must be a positive integer"@,
            ThreadsError::InvalidString(s) => "invalid thread value: '"@ + s@
                + "', expected a positive integer or 'nproc'"@,
            ThreadsError::WrongType => "threads must be a positive integer or the string 'nproc'"@,
        }
    }

    /// The message this error is reported with.
    pub fn message(&self) -> (m: String)
        ensures
            m@ == self.spec_message(),
    {
        match self {
            ThreadsError::Zero => "threads must be greater than 0".to_string(),
            ThreadsError::NotPositiveInteger => "threads must be a positive integer".to_string(),
            ThreadsError::InvalidString(s) => {
                let mut m = "invalid thread value: '".to_string();
                m.append(s.as_str());
                m.append("', expected a positive integer or 'nproc'");
                m
            },
            ThreadsError::WrongType => "threads must be a positive integer or the string 'nproc'".to_string(),
        }
    }
}

} // verus!
