use vstd::prelude::*;

verus! {

/// The abstract value of a player record: its database id (absent until the
/// record is persisted), its display name and its addressing token.
pub struct PlayerV {
    pub id: Option<int>,
    pub name: Seq<char>,
    pub token: Seq<char>,
}

/// The sole entity of the service.  `id` is assigned by the store and is
/// `None` only for a record that has not been persisted; `token` is the one
/// key clients use to address the record.
pub struct Player {
    pub id: Option<i64>,
    pub name: String,
    pub token: String,
}

/// The abstract value of a stored id.
pub open spec fn id_v(id: Option<i64>) -> Option<int> {
    match id {
        Some(i) => Some(i as int),
        None => None,
    }
}

impl View for Player {
    type V = PlayerV;

    open spec fn view(&self) -> PlayerV {
        PlayerV { id: id_v(self.id), name: self.name@, token: self.token@ }
    }
}

} // verus!
