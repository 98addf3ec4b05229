//! The table of known screensaver services and the match rules used to
//! subscribe to their lock-state signals.

use vstd::prelude::*;

verus! {

/// One known screensaver service on the session bus: the well-known name of
/// its interface and the object path it exposes.
pub struct ServiceEntry {
    pub interface: String,
    pub path: String,
}

/// How many screensaver services the table holds.
pub open spec fn service_count() -> nat {
    2
}

/// The interface name of table entry `i`.
pub open spec fn spec_interface(i: int) -> Seq<char> {
    if i == 0 {
        "org.gnome.ScreenSaver"@
    } else {
        "org.freedesktop.ScreenSaver"@
    }
}

/// The object path of table entry `i`.
pub open spec fn spec_path(i: int) -> Seq<char> {
    if i == 0 {
        "/org/gnome/ScreenSaver"@
    } else {
        "/org/freedesktop/ScreenSaver"@
    }
}

/// The fixed, ordered table of known screensaver services.
pub fn known_services() -> (table: Vec<ServiceEntry>)
    ensures
        table@.len() == service_count(),
        forall|i: int|
            0 <= i < table@.len() ==> #[trigger] table@[i].interface@ == spec_interface(i),
        forall|i: int| 0 <= i < table@.len() ==> #[trigger] table@[i].path@ == spec_path(i),
{
    let mut table: Vec<ServiceEntry> = Vec::new();
    table.push(
        ServiceEntry {
            interface: "org.gnome.ScreenSaver".to_owned(),
            path: "/org/gnome/ScreenSaver".to_owned(),
        },
    );
    table.push(
        ServiceEntry {
            interface: "org.freedesktop.ScreenSaver".to_owned(),
            path: "/org/freedesktop/ScreenSaver".to_owned(),
        },
    );
    table
}

/// A bus match rule restricted to signal messages: subscribe to signals
/// named `member` on interface `interface`.
pub struct SignalMatchRule {
    pub interface: String,
    pub member: String,
}

/// The name of the lock-state transition signal.
pub open spec fn active_changed() -> Seq<char> {
    "ActiveChanged"@
}

/// The match rule that subscribes to a service's lock-state signals: signal
/// messages on the entry's interface whose member is `ActiveChanged`.
pub fn match_rule_for(entry: &ServiceEntry) -> (rule: SignalMatchRule)
    ensures
        rule.interface@ == entry.interface@,
        rule.member@ == active_changed(),
{
    SignalMatchRule { interface: entry.interface.clone(), member: "ActiveChanged".to_owned() }
}

} // verus!
