//! Visual treatment of an application state.
use vstd::prelude::*;

verus! {

#[derive(Debug, Clone, Copy, PartialEq, Eq, Structural)]
pub enum Status {
    Ready,
    Loading,
    ServerUnavailable,
    SessionEnded,
}

pub open spec fn status_message_spec(s: Status) -> Seq<char> {
    match s {
        Status::Ready => "Bienvenue. Votre poste est prêt."@,
        Status::Loading => "Connexion en cours…"@,
        Status::ServerUnavailable => "Connexion impossible"@,
        Status::SessionEnded => "Connexion interrompue"@,
    }
}

impl Status {
    pub fn message(self) -> (r: &'static str)
        ensures
            r@ == status_message_spec(self),
    {
        match self {
            Status::Ready => "Bienvenue. Votre poste est prêt.",
            Status::Loading => "Connexion en cours…",
            Status::ServerUnavailable => "Connexion impossible",
            Status::SessionEnded => "Connexion interrompue",
        }
    }

    pub fn is_loading(self) -> (r: bool)
        ensures
            r == (self == Status::Loading),
    {
        self == Status::Loading
    }

    pub fn is_error(self) -> (r: bool)
        ensures
            r == !(self == Status::Ready || self == Status::Loading),
    {
        !(self == Status::Ready || self == Status::Loading)
    }
}

} // verus!
