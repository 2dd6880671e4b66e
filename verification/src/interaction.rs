use vstd::prelude::*;

verus! {

/// The mathematical content of a parsed interaction record.
pub struct InteractionModel {
    pub id: Seq<u8>,
    pub application_id: Seq<u8>,
    pub command_type: u8,
    pub guild_id: Option<Seq<u8>>,
    pub channel_id: Option<Seq<u8>>,
    pub token: Seq<u8>,
    pub version: u8,
    pub message: Option<Seq<u8>>,
}

/// The view of an optional byte string.
pub open spec fn opt_bytes_view(o: Option<Vec<u8>>) -> Option<Seq<u8>> {
    match o {
        Some(v) => Some(v@),
        None => None,
    }
}

/// One inbound interaction, parsed from an authenticated request body:
/// its id, the owning application, the declared type tag, optional origin
/// identifiers, the short-lived callback token, the protocol version and an
/// optional message payload.
pub struct Interaction {
    pub id: Vec<u8>,
    pub application_id: Vec<u8>,
    pub command_type: u8,
    pub guild_id: Option<Vec<u8>>,
    pub channel_id: Option<Vec<u8>>,
    pub token: Vec<u8>,
    pub version: u8,
    pub message: Option<Vec<u8>>,
}

impl View for Interaction {
    type V = InteractionModel;

    open spec fn view(&self) -> InteractionModel {
        InteractionModel {
            id: self.id@,
            application_id: self.application_id@,
            command_type: self.command_type,
            guild_id: opt_bytes_view(self.guild_id),
            channel_id: opt_bytes_view(self.channel_id),
            token: self.token@,
            version: self.version,
            message: opt_bytes_view(self.message),
        }
    }
}

/// A body that does not decode into a valid interaction record. It is a
/// distinct failure class from signature rejection: it can only arise after
/// authentication has succeeded.
#[derive(PartialEq, Eq, Structural, Clone, Copy, Debug)]
pub enum ParseError {
    Malformed,
}

} // verus!
