//! The event value and its JSON wire format.
//!
//! The wire format is a flat JSON object with exactly three top-level
//! keys, keys in alphabetical order:
//! `{"event":"<name>","properties":{"clientid":"<id>","timestamp":"<ts>"},"type":"track"}`.

use vstd::prelude::*;
use vstd::string::StringExecFns;

verus! {

/// One recorded occurrence. Once constructed it is fully determined
/// and immutable; its JSON rendering is a pure function of its fields.
#[derive(Debug, Clone)]
pub struct Event {
    pub name: String,
    pub clientid: String,
    pub timestamp: String,
    /// Mapping from property key to value, kept sorted by key; it
    /// always holds exactly the `clientid` and `timestamp` entries.
    pub properties: Vec<(String, String)>,
}

/// The exact JSON document for an event with the given field values,
/// substituted verbatim.
pub open spec fn event_json(name: Seq<char>, clientid: Seq<char>, timestamp: Seq<char>) -> Seq<char> {
    "{\"event\":\""@ + name + "\",\"properties\":{\"clientid\":\""@ + clientid
        + "\",\"timestamp\":\""@ + timestamp + "\"},\"type\":\"track\"}"@
}

impl Event {
    /// The properties mapping holds exactly the two well-known keys in
    /// alphabetical order, and their values agree with the fields.
    pub open spec fn wf(&self) -> bool {
        &&& self.properties@.len() == 2
        &&& self.properties@[0].0@ == "clientid"@
        &&& self.properties@[0].1@ == self.clientid@
        &&& self.properties@[1].0@ == "timestamp"@
        &&& self.properties@[1].1@ == self.timestamp@
    }

    pub fn new(name: &str, clientid: &str, timestamp: &str) -> (e: Event)
        ensures
            e.name@ == name@,
            e.clientid@ == clientid@,
            e.timestamp@ == timestamp@,
            e.wf(),
    {
        let mut properties: Vec<(String, String)> = Vec::new();
        properties.push((String::from_str("clientid"), String::from_str(clientid)));
        properties.push((String::from_str("timestamp"), String::from_str(timestamp)));
        Event {
            name: String::from_str(name),
            clientid: String::from_str(clientid),
            timestamp: String::from_str(timestamp),
            properties,
        }
    }

    /// Render the event as its JSON document. The property values are
    /// emitted from the sorted `properties` mapping.
    pub fn to_json(&self) -> (r: String)
        requires
            self.wf(),
        ensures
            r@ == event_json(self.name@, self.clientid@, self.timestamp@),
    {
        let mut s = String::from_str("{\"event\":\"");
        s.append(self.name.as_str());
        s.append("\",\"properties\":{\"clientid\":\"");
        s.append(self.properties[0].1.as_str());
        s.append("\",\"timestamp\":\"");
        s.append(self.properties[1].1.as_str());
        s.append("\"},\"type\":\"track\"}");
        proof {
            assert(s@ =~= event_json(self.name@, self.clientid@, self.timestamp@));
        }
        s
    }
}

/// Serialization is deterministic: the JSON document depends on the
/// event's field values alone, never on call order or prior state, so
/// two events with equal fields render to the same document.
pub proof fn lemma_serialization_deterministic(a: Event, b: Event)
    requires
        a.name@ == b.name@,
        a.clientid@ == b.clientid@,
        a.timestamp@ == b.timestamp@,
    ensures
        event_json(a.name@, a.clientid@, a.timestamp@) == event_json(b.name@, b.clientid@, b.timestamp@),
{
}

} // verus!
