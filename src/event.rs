use vstd::prelude::*;

verus! {

/// One unit of dispatch work. Immutable once constructed.
pub struct Event {
    pub id: u64,
    pub payload: Option<Vec<u8>>,
}

impl Event {
    pub fn new(id: u64) -> (r: Event)
        ensures
            r.id == id,
            r.payload is None,
    {
        Event { id, payload: None }
    }

    pub fn with_payload(id: u64, payload: Vec<u8>) -> (r: Event)
        ensures
            r.id == id,
            r.payload == Some(payload),
    {
        Event { id, payload: Some(payload) }
    }
}

} // verus!
