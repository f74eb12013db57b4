//! The plugin system's exceptions: a name, a status code and a message; an
//! empty message is replaced by the configured message of the kind.

use vstd::prelude::*;
use crate::plugin::constant::GlobalConfig;
use crate::text::to_owned_string;

verus! {

/// An exception: its name, status code and message.
#[derive(Debug)]
pub struct BaseException {
    pub name: String,
    pub status: u32,
    pub message: String,
}

impl BaseException {
    /// An exception with the given name, code and message.
    pub fn new(name: String, code: u32, message: String) -> (r: BaseException)
        ensures
            r.name == name,
            r.status == code,
            r.message == message,
    {
        BaseException { name, status: code, message }
    }

    /// The display text: `name: message`.
    pub fn text(&self) -> (r: String)
        ensures
            r@ == self.name@ + ": "@ + self.message@,
    {
        let mut r = self.name.clone();
        r.append(": ");
        r.append(self.message.as_str());
        r
    }
}

/// The message of an exception built from `message`: the configured message
/// of its kind where `message` is empty.
pub open spec fn message_or(message: Seq<char>, fallback: Seq<char>) -> Seq<char> {
    if message.len() == 0 {
        fallback
    } else {
        message
    }
}

/// A general exception (status 1001).
#[derive(Debug)]
pub struct CoolCommException {
    inner: BaseException,
}

/// A core exception (status 1003).
#[derive(Debug)]
pub struct CoolCoreException {
    inner: BaseException,
}

/// A validation exception (status 1002).
#[derive(Debug)]
pub struct CoolValidateException {
    inner: BaseException,
}

impl View for CoolCommException {
    type V = (Seq<char>, u32, Seq<char>);

    closed spec fn view(&self) -> (Seq<char>, u32, Seq<char>) {
        (self.inner.name@, self.inner.status, self.inner.message@)
    }
}

impl View for CoolCoreException {
    type V = (Seq<char>, u32, Seq<char>);

    closed spec fn view(&self) -> (Seq<char>, u32, Seq<char>) {
        (self.inner.name@, self.inner.status, self.inner.message@)
    }
}

impl View for CoolValidateException {
    type V = (Seq<char>, u32, Seq<char>);

    closed spec fn view(&self) -> (Seq<char>, u32, Seq<char>) {
        (self.inner.name@, self.inner.status, self.inner.message@)
    }
}

impl CoolCommException {
    /// A general exception with `message`, or `comm fail` where it is empty.
    pub fn new(message: &str) -> (r: CoolCommException)
        ensures
            r@ == ("CoolCommException"@, 1001u32, message_or(message@, "comm fail"@)),
    {
        let config = GlobalConfig::get_instance();
        let msg = if message.unicode_len() == 0 {
            to_owned_string(config.res_message().comm_fail())
        } else {
            to_owned_string(message)
        };
        CoolCommException {
            inner: BaseException::new(to_owned_string("CoolCommException"), config.res_code().comm_fail(), msg),
        }
    }

    /// The status code.
    pub fn status(&self) -> (r: u32)
        ensures
            r == self@.1,
    {
        self.inner.status
    }

    /// The message.
    pub fn message(&self) -> (r: &str)
        ensures
            r@ == self@.2,
    {
        self.inner.message.as_str()
    }

    /// The display text: `CoolCommException: message`.
    pub fn text(&self) -> (r: String)
        ensures
            r@ == self@.0 + ": "@ + self@.2,
    {
        self.inner.text()
    }
}

impl CoolCoreException {
    /// A core exception with `message`, or `core fail` where it is empty.
    pub fn new(message: &str) -> (r: CoolCoreException)
        ensures
            r@ == ("CoolCoreException"@, 1003u32, message_or(message@, "core fail"@)),
    {
        let config = GlobalConfig::get_instance();
        let msg = if message.unicode_len() == 0 {
            to_owned_string(config.res_message().core_fail())
        } else {
            to_owned_string(message)
        };
        CoolCoreException {
            inner: BaseException::new(to_owned_string("CoolCoreException"), config.res_code().core_fail(), msg),
        }
    }

    /// The status code.
    pub fn status(&self) -> (r: u32)
        ensures
            r == self@.1,
    {
        self.inner.status
    }

    /// The message.
    pub fn message(&self) -> (r: &str)
        ensures
            r@ == self@.2,
    {
        self.inner.message.as_str()
    }

    /// The display text: `CoolCoreException: message`.
    pub fn text(&self) -> (r: String)
        ensures
            r@ == self@.0 + ": "@ + self@.2,
    {
        self.inner.text()
    }
}

impl CoolValidateException {
    /// A validation exception with `message`, or `validate fail` where it is empty.
    pub fn new(message: &str) -> (r: CoolValidateException)
        ensures
            r@ == ("CoolValidateException"@, 1002u32, message_or(message@, "validate fail"@)),
    {
        let config = GlobalConfig::get_instance();
        let msg = if message.unicode_len() == 0 {
            to_owned_string(config.res_message().validate_fail())
        } else {
            to_owned_string(message)
        };
        CoolValidateException {
            inner: BaseException::new(to_owned_string("CoolValidateException"), config.res_code().validate_fail(), msg),
        }
    }

    /// The status code.
    pub fn status(&self) -> (r: u32)
        ensures
            r == self@.1,
    {
        self.inner.status
    }

    /// The message.
    pub fn message(&self) -> (r: &str)
        ensures
            r@ == self@.2,
    {
        self.inner.message.as_str()
    }

    /// The display text: `CoolValidateException: message`.
    pub fn text(&self) -> (r: String)
        ensures
            r@ == self@.0 + ": "@ + self@.2,
    {
        self.inner.text()
    }
}

} // verus!
