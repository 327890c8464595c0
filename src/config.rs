//! The choice of run mode from the addresses given on the command line.
use vstd::prelude::*;

verus! {

/// What the program runs.
#[derive(Clone, Debug, PartialEq, Eq)]
pub enum Mode {
    /// A SOCKS5 server on this address.
    Standalone { bind: String },
    /// A tunnel master: the slave connects to `control`, clients to `client`.
    Master { control: String, client: String },
    /// A tunnel slave that connects to the master at this address.
    Slave { master: String },
    /// The master's control address was given without its client address.
    MissingClientAddress,
    /// No mode was asked for: print the usage text.
    Usage,
}

/// Picks the mode from the addresses given with `-l`, `-t`, `-s` and `-r`.
/// The first mode asked for wins, in the order standalone, master, slave.
pub fn select_mode(
    bind: Option<String>,
    control: Option<String>,
    client: Option<String>,
    master: Option<String>,
) -> (m: Mode)
    ensures
        bind is Some ==> m is Standalone && m->bind@ == bind->0@,
        bind is None && control is Some && client is Some ==> m is Master && m->control@
            == control->0@ && m->client@ == client->0@,
        bind is None && control is Some && client is None ==> m is MissingClientAddress,
        bind is None && control is None && master is Some ==> m is Slave && m->master@
            == master->0@,
        bind is None && control is None && master is None ==> m is Usage,
{
    match bind {
        Some(b) => Mode::Standalone { bind: b },
        None => match control {
            Some(c) => match client {
                Some(s) => Mode::Master { control: c, client: s },
                None => Mode::MissingClientAddress,
            },
            None => match master {
                Some(x) => Mode::Slave { master: x },
                None => Mode::Usage,
            },
        },
    }
}

} // verus!
