//! Per-endpoint protocol settings.

use vstd::prelude::*;

verus! {

/// How an endpoint speaks: HTTP/1 (with its connection options), HTTP/2,
/// or not HTTP at all.
#[derive(Debug, Clone, Copy, PartialEq, Eq, Hash, Structural)]
pub enum Settings {
    Http1 { keep_alive: bool, wants_h1_upgrade: bool, was_absolute_form: bool },
    Http2,
    NotHttp,
}

impl Settings {
    /// Whether the request target was in absolute form; `false` for
    /// anything but HTTP/1.
    pub fn was_absolute_form(&self) -> (r: bool)
        ensures
            r <==> (self matches Settings::Http1 { was_absolute_form: true, .. }),
    {
        match self {
            Settings::Http1 { was_absolute_form, .. } => *was_absolute_form,
            _ => false,
        }
    }

    /// Whether the request asked for an HTTP/1 connection upgrade.
    pub fn wants_h1_upgrade(&self) -> (r: bool)
        ensures
            r <==> (self matches Settings::Http1 { wants_h1_upgrade: true, .. }),
    {
        match self {
            Settings::Http1 { wants_h1_upgrade, .. } => *wants_h1_upgrade,
            _ => false,
        }
    }

    /// Whether the settings describe an HTTP endpoint.
    pub fn is_http(&self) -> (r: bool)
        ensures
            r <==> !(self is NotHttp),
    {
        match self {
            Settings::NotHttp => false,
            _ => true,
        }
    }
}

} // verus!
