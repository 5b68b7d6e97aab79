//! Option words for opening sessions and requests, built one flag at a time.
#![allow(non_snake_case)]
#![allow(non_camel_case_types)]
use vstd::prelude::*;

verus! {

/// Session flag: the session's operations complete asynchronously.
pub const WINHTTP_FLAG_ASYNC: u32 = 0x1000_0000;

/// Session flag: secure protocol defaults.
pub const WINHTTP_FLAG_SECURE_DEFAULTS: u32 = 0x3000_0000;

/// Request flag: do not use a cached response.
pub const WINHTTP_FLAG_BYPASS_PROXY_CACHE: u32 = 0x0000_0100;

/// Request flag: send the object name unescaped.
pub const WINHTTP_FLAG_ESCAPE_DISABLE: u32 = 0x0000_0040;

/// Request flag: send the query string unescaped.
pub const WINHTTP_FLAG_ESCAPE_DISABLE_QUERY: u32 = 0x0000_0080;

/// Request flag: escape percent signs.
pub const WINHTTP_FLAG_ESCAPE_PERCENT: u32 = 0x0000_0004;

/// Request flag: send the object name without code-page conversion.
pub const WINHTTP_FLAG_NULL_CODEPAGE: u32 = 0x0000_0008;

/// Request flag: reload from the origin (the same bit as bypassing the cache).
pub const WINHTTP_FLAG_REFRESH: u32 = 0x0000_0100;

/// Request flag: use TLS.
pub const WINHTTP_FLAG_SECURE: u32 = 0x0080_0000;

/// How a session reaches the network.
#[derive(PartialEq, Eq, Structural, Debug, Clone, Copy)]
pub enum AccessType {
    WINHTTP_ACCESS_TYPE_NO_PROXY,
    WINHTTP_ACCESS_TYPE_DEFAULT_PROXY,
    WINHTTP_ACCESS_TYPE_NAMED_PROXY,
    WINHTTP_ACCESS_TYPE_AUTOMATIC_PROXY,
}

/// The numeric code of an access type.
pub open spec fn access_code(a: AccessType) -> u32 {
    match a {
        AccessType::WINHTTP_ACCESS_TYPE_NO_PROXY => 1,
        AccessType::WINHTTP_ACCESS_TYPE_DEFAULT_PROXY => 0,
        AccessType::WINHTTP_ACCESS_TYPE_NAMED_PROXY => 3,
        AccessType::WINHTTP_ACCESS_TYPE_AUTOMATIC_PROXY => 4,
    }
}

impl AccessType {
    /// The numeric code passed to the OS.
    pub fn code(&self) -> (r: u32)
        ensures
            r == access_code(*self),
    {
        match self {
            AccessType::WINHTTP_ACCESS_TYPE_NO_PROXY => 1,
            AccessType::WINHTTP_ACCESS_TYPE_DEFAULT_PROXY => 0,
            AccessType::WINHTTP_ACCESS_TYPE_NAMED_PROXY => 3,
            AccessType::WINHTTP_ACCESS_TYPE_AUTOMATIC_PROXY => 4,
        }
    }
}

/// Flags for opening a session.
pub struct WinHttpOpenFlag {
    dwFlags: u32,
}

impl View for WinHttpOpenFlag {
    type V = u32;

    closed spec fn view(&self) -> u32 {
        self.dwFlags
    }
}

impl WinHttpOpenFlag {
    /// No flag set.
    pub fn new() -> (r: WinHttpOpenFlag)
        ensures
            r@ == 0,
    {
        WinHttpOpenFlag { dwFlags: 0 }
    }

    /// Adds the asynchronous flag.
    pub fn set_WINHTTP_FLAG_ASYNC(self) -> (r: WinHttpOpenFlag)
        ensures
            r@ == self@ | WINHTTP_FLAG_ASYNC,
    {
        WinHttpOpenFlag { dwFlags: self.dwFlags | WINHTTP_FLAG_ASYNC }
    }

    /// Adds the secure-defaults flag.
    pub fn set_WINHTTP_FLAG_SECURE_DEFAULTS(self) -> (r: WinHttpOpenFlag)
        ensures
            r@ == self@ | WINHTTP_FLAG_SECURE_DEFAULTS,
    {
        WinHttpOpenFlag { dwFlags: self.dwFlags | WINHTTP_FLAG_SECURE_DEFAULTS }
    }

    /// The option word.
    pub fn bits(&self) -> (r: u32)
        ensures
            r == self@,
    {
        self.dwFlags
    }
}

/// Flags for opening a request.
pub struct WinHttpOpenRequestFlag {
    dwFlags: u32,
}

impl View for WinHttpOpenRequestFlag {
    type V = u32;

    closed spec fn view(&self) -> u32 {
        self.dwFlags
    }
}

impl WinHttpOpenRequestFlag {
    /// No flag set.
    pub fn new() -> (r: WinHttpOpenRequestFlag)
        ensures
            r@ == 0,
    {
        WinHttpOpenRequestFlag { dwFlags: 0 }
    }

    /// Adds the bypass-proxy-cache flag.
    pub fn set_WINHTTP_FLAG_BYPASS_PROXY_CACHE(self) -> (r: WinHttpOpenRequestFlag)
        ensures
            r@ == self@ | WINHTTP_FLAG_BYPASS_PROXY_CACHE,
    {
        WinHttpOpenRequestFlag { dwFlags: self.dwFlags | WINHTTP_FLAG_BYPASS_PROXY_CACHE }
    }

    /// Adds the escape-disable flag.
    pub fn set_WINHTTP_FLAG_ESCAPE_DISABLE(self) -> (r: WinHttpOpenRequestFlag)
        ensures
            r@ == self@ | WINHTTP_FLAG_ESCAPE_DISABLE,
    {
        WinHttpOpenRequestFlag { dwFlags: self.dwFlags | WINHTTP_FLAG_ESCAPE_DISABLE }
    }

    /// Adds the escape-disable-query flag.
    pub fn set_WINHTTP_FLAG_ESCAPE_DISABLE_QUERY(self) -> (r: WinHttpOpenRequestFlag)
        ensures
            r@ == self@ | WINHTTP_FLAG_ESCAPE_DISABLE_QUERY,
    {
        WinHttpOpenRequestFlag { dwFlags: self.dwFlags | WINHTTP_FLAG_ESCAPE_DISABLE_QUERY }
    }

    /// Adds the escape-percent flag.
    pub fn set_WINHTTP_FLAG_ESCAPE_PERCENT(self) -> (r: WinHttpOpenRequestFlag)
        ensures
            r@ == self@ | WINHTTP_FLAG_ESCAPE_PERCENT,
    {
        WinHttpOpenRequestFlag { dwFlags: self.dwFlags | WINHTTP_FLAG_ESCAPE_PERCENT }
    }

    /// Adds the null-code-page flag.
    pub fn set_WINHTTP_FLAG_NULL_CODEPAGE(self) -> (r: WinHttpOpenRequestFlag)
        ensures
            r@ == self@ | WINHTTP_FLAG_NULL_CODEPAGE,
    {
        WinHttpOpenRequestFlag { dwFlags: self.dwFlags | WINHTTP_FLAG_NULL_CODEPAGE }
    }

    /// Adds the refresh flag.
    pub fn set_WINHTTP_FLAG_REFRESH(self) -> (r: WinHttpOpenRequestFlag)
        ensures
            r@ == self@ | WINHTTP_FLAG_REFRESH,
    {
        WinHttpOpenRequestFlag { dwFlags: self.dwFlags | WINHTTP_FLAG_REFRESH }
    }

    /// Adds the secure flag.
    pub fn set_WINHTTP_FLAG_SECURE(self) -> (r: WinHttpOpenRequestFlag)
        ensures
            r@ == self@ | WINHTTP_FLAG_SECURE,
    {
        WinHttpOpenRequestFlag { dwFlags: self.dwFlags | WINHTTP_FLAG_SECURE }
    }

    /// The option word.
    pub fn bits(&self) -> (r: u32)
        ensures
            r == self@,
    {
        self.dwFlags
    }
}

} // verus!
