//! Kernel errors.
//!
//! Many kernel functions return an `int` of which the negative values are negated error numbers.
//! These are turned into a `Result` whose error carries the number.
use crate::text::{append_decimal, decimal};
use vstd::prelude::*;
use vstd::string::*;

verus! {

/// A kernel error, identified by its error number.
#[derive(Clone, Copy, Debug, PartialEq, Eq, Structural)]
pub struct Error(pub u32);

/// What a return code stands for: a negative one for the error that it negates.
pub open spec fn result_of(code: i32) -> Result<i32, Error> {
    if code < 0 {
        Err(Error((-code) as u32))
    } else {
        Ok(code)
    }
}

/// What a return code stands for whose non-negative value carries nothing.
pub open spec fn void_result_of(code: i32) -> Result<(), Error> {
    if code < 0 {
        Err(Error((-code) as u32))
    } else {
        Ok(())
    }
}

/// Map a return code into a `Result`: a negative code is an error.
pub fn to_result(code: i32) -> (r: Result<i32, Error>)
    ensures
        r == result_of(code),
{
    if code < 0 {
        Err(Error((-(code as i64)) as u32))
    } else {
        Ok(code)
    }
}

/// Map a return code whose non-negative value carries nothing.
pub fn to_result_void(code: i32) -> (r: Result<(), Error>)
    ensures
        r == void_result_of(code),
{
    match to_result(code) {
        Ok(_) => Ok(()),
        Err(e) => Err(e),
    }
}

/// Map a return code that only signals failure, with the error number found in `errno`.
pub fn to_result_errno(code: i32, errno: u32) -> (r: Result<i32, Error>)
    ensures
        code >= 0 ==> r == Ok::<i32, Error>(code),
        code < 0 ==> r == Err::<i32, Error>(Error(errno)),
{
    if code < 0 {
        Err(Error(errno))
    } else {
        Ok(code)
    }
}

impl Error {
    /// The message that describes this error.
    pub fn to_string(&self) -> (s: String)
        ensures
            s@ == "zephyr error errno:"@ + decimal(self.0 as nat),
    {
        let mut s = String::new();
        s.append("zephyr error errno:");
        append_decimal(&mut s, self.0);
        assert(s@ == "zephyr error errno:"@ + decimal(self.0 as nat));
        s
    }

    /// The same message, for debugging.
    pub fn to_debug_string(&self) -> (s: String)
        ensures
            s@ == "zephyr error errno:"@ + decimal(self.0 as nat),
    {
        self.to_string()
    }
}

/// A return code that is not negative is a success, with the code as its value where there is one.
/// A negative one is the error with the number that it negates, or with the number in `errno`.
pub proof fn law_return_codes(
    code: i32,
    errno: u32,
    value: Result<i32, Error>,
    void: Result<(), Error>,
    other: Result<i32, Error>,
)
    requires
        call_ensures(to_result, (code,), value),
        call_ensures(to_result_void, (code,), void),
        call_ensures(to_result_errno, (code, errno), other),
    ensures
        code >= 0 ==> value == Ok::<i32, Error>(code) && void is Ok && other == value,
        code < 0 ==> {
            &&& value matches Err(e) && e.0 + code == 0
            &&& void matches Err(e) && e.0 + code == 0
            &&& other matches Err(e) && e.0 == errno
        },
{
}

} // verus!
