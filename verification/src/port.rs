//! Power-over-Ethernet port resources and their JSON wire format.

use crate::json::{
    as_list, empty_object, flag_value, is_object, json_of, json_of_each, member, read_count,
    read_flag, read_text, set_member, text_value, unsigned_value, Json,
};
use serde_json::Value;
use vstd::prelude::*;
use vstd::std_specs::convert::FromSpecImpl;

verus! {

/// A switch port's Power-over-Ethernet state, as the switch reports it.
#[derive(Debug)]
pub struct PortPoe {
    pub uri: String,
    pub port_id: String,
    pub is_poe_enabled: bool,
    pub poe_priority: String,
    pub poe_allocation_method: String,
    pub allocated_power_in_watts: u32,
    pub port_configured_type: String,
    pub pre_standard_detect_enabled: bool,
}

/// What a [`PortPoe`] holds, with each string as its sequence of characters.
pub struct PortPoeView {
    pub uri: Seq<char>,
    pub port_id: Seq<char>,
    pub is_poe_enabled: bool,
    pub poe_priority: Seq<char>,
    pub poe_allocation_method: Seq<char>,
    pub allocated_power_in_watts: u32,
    pub port_configured_type: Seq<char>,
    pub pre_standard_detect_enabled: bool,
}

impl View for PortPoe {
    type V = PortPoeView;

    open spec fn view(&self) -> PortPoeView {
        PortPoeView {
            uri: self.uri@,
            port_id: self.port_id@,
            is_poe_enabled: self.is_poe_enabled,
            poe_priority: self.poe_priority@,
            poe_allocation_method: self.poe_allocation_method@,
            allocated_power_in_watts: self.allocated_power_in_watts,
            port_configured_type: self.port_configured_type@,
            pre_standard_detect_enabled: self.pre_standard_detect_enabled,
        }
    }
}

/// The ports of a vector, each by its view.
pub open spec fn port_views(ports: Seq<PortPoe>) -> Seq<PortPoeView> {
    ports.map_values(|port: PortPoe| port@)
}

impl PortPoeView {
    /// The part of the port that an update may set.
    pub open spec fn writable(self) -> PortPoeWrite {
        PortPoeWrite { is_poe_enabled: self.is_poe_enabled }
    }

    /// The JSON object that carries this port on the wire: one member for
    /// each field, under the field's name.
    pub open spec fn to_json(self) -> Json {
        Json::empty_object().with("uri"@, Json::Text(self.uri)).with(
            "port_id"@,
            Json::Text(self.port_id),
        ).with("is_poe_enabled"@, Json::Bool(self.is_poe_enabled)).with(
            "poe_priority"@,
            Json::Text(self.poe_priority),
        ).with("poe_allocation_method"@, Json::Text(self.poe_allocation_method)).with(
            "allocated_power_in_watts"@,
            Json::Unsigned(self.allocated_power_in_watts as u64),
        ).with("port_configured_type"@, Json::Text(self.port_configured_type)).with(
            "pre_standard_detect_enabled"@,
            Json::Bool(self.pre_standard_detect_enabled),
        )
    }

    /// Whether `document` carries a port: an object that has every field
    /// under its name with a value of the field's type. Other members are
    /// ignored.
    pub open spec fn carried_by(document: Json) -> bool {
        &&& document.text_at("uri"@) is Some
        &&& document.text_at("port_id"@) is Some
        &&& document.flag_at("is_poe_enabled"@) is Some
        &&& document.text_at("poe_priority"@) is Some
        &&& document.text_at("poe_allocation_method"@) is Some
        &&& document.count_at("allocated_power_in_watts"@) is Some
        &&& document.text_at("port_configured_type"@) is Some
        &&& document.flag_at("pre_standard_detect_enabled"@) is Some
    }

    /// The port that `document` carries, if it carries one.
    pub open spec fn from_json(document: Json) -> Option<PortPoeView> {
        if Self::carried_by(document) {
            Some(
                PortPoeView {
                    uri: document.text_at("uri"@)->Some_0,
                    port_id: document.text_at("port_id"@)->Some_0,
                    is_poe_enabled: document.flag_at("is_poe_enabled"@)->Some_0,
                    poe_priority: document.text_at("poe_priority"@)->Some_0,
                    poe_allocation_method: document.text_at("poe_allocation_method"@)->Some_0,
                    allocated_power_in_watts: document.count_at(
                        "allocated_power_in_watts"@,
                    )->Some_0,
                    port_configured_type: document.text_at("port_configured_type"@)->Some_0,
                    pre_standard_detect_enabled: document.flag_at(
                        "pre_standard_detect_enabled"@,
                    )->Some_0,
                },
            )
        } else {
            None
        }
    }

    /// The ports that the elements of a JSON array carry, if every element
    /// carries one.
    pub open spec fn each_from_json(items: Seq<Json>) -> Option<Seq<PortPoeView>> {
        if forall|i: int| 0 <= i < items.len() ==> Self::carried_by(#[trigger] items[i]) {
            Some(items.map_values(|item: Json| Self::from_json(item)->Some_0))
        } else {
            None
        }
    }

    /// The ports that the reply to a listing carries: an object whose member
    /// `collectionResult` is an object and whose member `portPoe` is an array
    /// of ports.
    pub open spec fn list_from_json(document: Json) -> Option<Seq<PortPoeView>> {
        match (document.member("collectionResult"@), document.member("portPoe"@)) {
            (Some(Json::Object(_)), Some(Json::List(items))) => Self::each_from_json(items),
            _ => None,
        }
    }
}

impl Clone for PortPoe {
    fn clone(&self) -> (copy: PortPoe)
        ensures
            copy@ == self@,
    {
        PortPoe {
            uri: self.uri.clone(),
            port_id: self.port_id.clone(),
            is_poe_enabled: self.is_poe_enabled,
            poe_priority: self.poe_priority.clone(),
            poe_allocation_method: self.poe_allocation_method.clone(),
            allocated_power_in_watts: self.allocated_power_in_watts,
            port_configured_type: self.port_configured_type.clone(),
            pre_standard_detect_enabled: self.pre_standard_detect_enabled,
        }
    }
}

impl Default for PortPoe {
    fn default() -> (port: PortPoe)
        ensures
            port@ == (PortPoeView {
                uri: Seq::empty(),
                port_id: Seq::empty(),
                is_poe_enabled: false,
                poe_priority: Seq::empty(),
                poe_allocation_method: Seq::empty(),
                allocated_power_in_watts: 0,
                port_configured_type: Seq::empty(),
                pre_standard_detect_enabled: false,
            }),
    {
        PortPoe {
            uri: String::new(),
            port_id: String::new(),
            is_poe_enabled: false,
            poe_priority: String::new(),
            poe_allocation_method: String::new(),
            allocated_power_in_watts: 0,
            port_configured_type: String::new(),
            pre_standard_detect_enabled: false,
        }
    }
}

impl PortPoe {
    /// Encodes the port for the wire.
    pub fn to_json(&self) -> (value: Value)
        ensures
            json_of(value) == self@.to_json(),
    {
        let mut value = empty_object();
        set_member(&mut value, "uri", text_value(self.uri.as_str()));
        set_member(&mut value, "port_id", text_value(self.port_id.as_str()));
        set_member(&mut value, "is_poe_enabled", flag_value(self.is_poe_enabled));
        set_member(&mut value, "poe_priority", text_value(self.poe_priority.as_str()));
        set_member(
            &mut value,
            "poe_allocation_method",
            text_value(self.poe_allocation_method.as_str()),
        );
        set_member(
            &mut value,
            "allocated_power_in_watts",
            unsigned_value(self.allocated_power_in_watts as u64),
        );
        set_member(
            &mut value,
            "port_configured_type",
            text_value(self.port_configured_type.as_str()),
        );
        set_member(
            &mut value,
            "pre_standard_detect_enabled",
            flag_value(self.pre_standard_detect_enabled),
        );
        value
    }

    /// Decodes a port from the wire. `None` where the value carries none.
    pub fn from_json(value: &Value) -> (port: Option<PortPoe>)
        ensures
            match port {
                Some(port) => PortPoeView::from_json(json_of(*value)) == Some(port@),
                None => PortPoeView::from_json(json_of(*value)) is None,
            },
    {
        let uri = read_text(value, "uri")?;
        let port_id = read_text(value, "port_id")?;
        let is_poe_enabled = read_flag(value, "is_poe_enabled")?;
        let poe_priority = read_text(value, "poe_priority")?;
        let poe_allocation_method = read_text(value, "poe_allocation_method")?;
        let allocated_power_in_watts = read_count(value, "allocated_power_in_watts")?;
        let port_configured_type = read_text(value, "port_configured_type")?;
        let pre_standard_detect_enabled = read_flag(value, "pre_standard_detect_enabled")?;
        Some(
            PortPoe {
                uri,
                port_id,
                is_poe_enabled,
                poe_priority,
                poe_allocation_method,
                allocated_power_in_watts,
                port_configured_type,
                pre_standard_detect_enabled,
            },
        )
    }

    /// Decodes the ports from the reply to a listing, in the reply's order.
    /// `None` where the value is no such reply.
    pub fn list_from_json(value: &Value) -> (ports: Option<Vec<PortPoe>>)
        ensures
            match ports {
                Some(ports) => PortPoeView::list_from_json(json_of(*value)) == Some(
                    port_views(ports@),
                ),
                None => PortPoeView::list_from_json(json_of(*value)) is None,
            },
    {
        let summary = member(value, "collectionResult")?;
        if !is_object(summary) {
            return None;
        }
        let items = as_list(member(value, "portPoe")?)?;
        let ghost documents = json_of_each(items@);
        let mut ports: Vec<PortPoe> = Vec::new();
        let mut at: usize = 0;
        while at < items.len()
            invariant
                at <= items.len(),
                documents == json_of_each(items@),
                json_of(*value).member("collectionResult"@) matches Some(Json::Object(_)),
                json_of(*value).member("portPoe"@) == Some(Json::List(documents)),
                ports.len() == at,
                forall|i: int| 0 <= i < at ==> PortPoeView::carried_by(#[trigger] documents[i]),
                forall|i: int|
                    0 <= i < at ==> PortPoeView::from_json(documents[i]) == Some(
                        #[trigger] ports[i]@,
                    ),
            decreases items.len() - at,
        {
            match PortPoe::from_json(&items[at]) {
                Some(port) => ports.push(port),
                None => {
                    assert(documents[at as int] == json_of(items@[at as int]));
                    assert(!PortPoeView::carried_by(documents[at as int]));
                    return None;
                },
            }
            at += 1;
        }
        assert(port_views(ports@) =~= documents.map_values(
            |item: Json| PortPoeView::from_json(item)->Some_0,
        ));
        Some(ports)
    }
}

/// The part of a port that an update may set.
#[derive(Clone, Copy, Debug)]
pub struct PortPoeWrite {
    pub is_poe_enabled: bool,
}

impl From<PortPoe> for PortPoeWrite {
    fn from(port_poe: PortPoe) -> (payload: PortPoeWrite) {
        PortPoeWrite { is_poe_enabled: port_poe.is_poe_enabled }
    }
}

impl FromSpecImpl<PortPoe> for PortPoeWrite {
    open spec fn obeys_from_spec() -> bool {
        true
    }

    open spec fn from_spec(port_poe: PortPoe) -> PortPoeWrite {
        port_poe@.writable()
    }
}

impl From<&PortPoe> for PortPoeWrite {
    fn from(port_poe: &PortPoe) -> (payload: PortPoeWrite) {
        PortPoeWrite { is_poe_enabled: port_poe.is_poe_enabled }
    }
}

impl FromSpecImpl<&PortPoe> for PortPoeWrite {
    open spec fn obeys_from_spec() -> bool {
        true
    }

    open spec fn from_spec(port_poe: &PortPoe) -> PortPoeWrite {
        port_poe@.writable()
    }
}

impl PortPoeWrite {
    /// The JSON object that carries the payload on the wire: the one member
    /// `is_poe_enabled`.
    pub open spec fn wire(self) -> Json {
        Json::empty_object().with("is_poe_enabled"@, Json::Bool(self.is_poe_enabled))
    }

    /// The payload that `document` carries, if it carries one: an object with
    /// a boolean under `is_poe_enabled`.
    pub open spec fn read(document: Json) -> Option<PortPoeWrite> {
        match document.flag_at("is_poe_enabled"@) {
            Some(is_poe_enabled) => Some(PortPoeWrite { is_poe_enabled }),
            None => None,
        }
    }

    /// Encodes the payload for the wire.
    pub fn to_json(&self) -> (value: Value)
        ensures
            json_of(value) == self.wire(),
    {
        let mut value = empty_object();
        set_member(&mut value, "is_poe_enabled", flag_value(self.is_poe_enabled));
        value
    }

    /// Decodes a payload from the wire. `None` where the value carries none.
    pub fn from_json(value: &Value) -> (payload: Option<PortPoeWrite>)
        ensures
            payload == Self::read(json_of(*value)),
    {
        match read_flag(value, "is_poe_enabled") {
            Some(is_poe_enabled) => Some(PortPoeWrite { is_poe_enabled }),
            None => None,
        }
    }
}

/// The payload of an update, made from a port, carries the port's writable
/// field and no other: the one member of its object is `is_poe_enabled`, with
/// the port's value. Read back from the wire it is the same payload.
pub proof fn lemma_write_payload_is_writable_only(port: PortPoeView)
    ensures
        port.writable().wire() matches Json::Object(members) && members.dom()
            =~= set!["is_poe_enabled"@] && members["is_poe_enabled"@] == Json::Bool(
            port.is_poe_enabled,
        ),
        PortPoeWrite::read(port.writable().wire()) == Some(port.writable()),
{
}

/// A port written to the wire and read back is the same port.
pub proof fn lemma_wire_round_trip(port: PortPoeView)
    ensures
        PortPoeView::from_json(port.to_json()) == Some(port),
{
    lemma_field_names_differ();
}

/// The lengths of the names of a port's fields on the wire. No two are the
/// same, so no two names are.
proof fn lemma_field_names_differ()
    ensures
        "uri"@.len() == 3,
        "port_id"@.len() == 7,
        "is_poe_enabled"@.len() == 14,
        "poe_priority"@.len() == 12,
        "poe_allocation_method"@.len() == 21,
        "allocated_power_in_watts"@.len() == 24,
        "port_configured_type"@.len() == 20,
        "pre_standard_detect_enabled"@.len() == 27,
{
    reveal_strlit("uri");
    reveal_strlit("port_id");
    reveal_strlit("is_poe_enabled");
    reveal_strlit("poe_priority");
    reveal_strlit("poe_allocation_method");
    reveal_strlit("allocated_power_in_watts");
    reveal_strlit("port_configured_type");
    reveal_strlit("pre_standard_detect_enabled");
}

} // verus!
