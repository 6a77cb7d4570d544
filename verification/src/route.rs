//! The command router: resolves one decoded command against the static
//! routing table into the ordered sequence of delivery requests to perform.
//!
//! Resolution order, first match wins: an explicit direct chat id; else a
//! subscriber list found in the table (one request per member, in table
//! order); else, for a subscriber list missing from the table, one diagnostic
//! notice to the owner destination; else one request to the owner destination
//! with the original payload.

use vstd::prelude::*;
use vstd::string::StringExecFns;
use crate::decode::{CommandModel, DecodedCommand, opt_string_view};

verus! {

/// One named group of destination chat ids.
#[derive(Debug)]
pub struct SubscriberList {
    pub name: String,
    pub chat_ids: Vec<i64>,
}

/// Model of a subscriber list.
pub struct ListModel {
    pub name: Seq<char>,
    pub chat_ids: Seq<i64>,
}

impl View for SubscriberList {
    type V = ListModel;

    open spec fn view(&self) -> ListModel {
        ListModel { name: self.name@, chat_ids: self.chat_ids@ }
    }
}

impl DeepView for SubscriberList {
    type V = ListModel;

    open spec fn deep_view(&self) -> ListModel {
        self@
    }
}

/// The static routing table: the named subscriber lists and the designated
/// owner destination used as fallback and for diagnostic notices. Read-only
/// for the process lifetime.
#[derive(Debug)]
pub struct RoutingTable {
    pub owner_chat_id: i64,
    pub lists: Vec<SubscriberList>,
}

/// Model of the routing table.
pub struct TableModel {
    pub owner_chat_id: i64,
    pub lists: Seq<ListModel>,
}

impl View for RoutingTable {
    type V = TableModel;

    open spec fn view(&self) -> TableModel {
        TableModel { owner_chat_id: self.owner_chat_id, lists: self.lists.deep_view() }
    }
}

/// One resolved delivery: a destination chat id, the message body, and an
/// optional image attachment path.
#[derive(Debug)]
pub struct DeliveryRequest {
    pub destination_chat_id: i64,
    pub text: String,
    pub image_path: Option<String>,
}

/// Model of a delivery request.
pub struct RequestModel {
    pub destination_chat_id: i64,
    pub text: Seq<char>,
    pub image_path: Option<Seq<char>>,
}

impl View for DeliveryRequest {
    type V = RequestModel;

    open spec fn view(&self) -> RequestModel {
        RequestModel {
            destination_chat_id: self.destination_chat_id,
            text: self.text@,
            image_path: opt_string_view(self.image_path),
        }
    }
}

impl DeepView for DeliveryRequest {
    type V = RequestModel;

    open spec fn deep_view(&self) -> RequestModel {
        self@
    }
}

/// The chat ids a subscriber list name maps to: the first list of that name,
/// in table order.
pub open spec fn spec_lookup(lists: Seq<ListModel>, name: Seq<char>) -> Option<Seq<i64>>
    decreases lists.len(),
{
    if lists.len() == 0 {
        None
    } else if lists[0].name == name {
        Some(lists[0].chat_ids)
    } else {
        spec_lookup(lists.drop_first(), name)
    }
}

/// The diagnostic notice sent to the owner destination in place of a delivery
/// to a subscriber list that the table does not know.
pub open spec fn spec_unknown_list_note(name: Seq<char>) -> Seq<char> {
    "Unknown subscriber list: "@ + name
}

/// The requests one command resolves to against one table.
pub open spec fn route_model(c: CommandModel, t: TableModel) -> Seq<RequestModel> {
    match c.destination_chat_id {
        Some(id) => seq![
            RequestModel { destination_chat_id: id, text: c.text, image_path: c.image_path },
        ],
        None => match c.subscriber_list_name {
            Some(name) => match spec_lookup(t.lists, name) {
                Some(ids) => Seq::new(
                    ids.len(),
                    |i: int|
                        RequestModel {
                            destination_chat_id: ids[i],
                            text: c.text,
                            image_path: c.image_path,
                        },
                ),
                None => seq![
                    RequestModel {
                        destination_chat_id: t.owner_chat_id,
                        text: spec_unknown_list_note(name),
                        image_path: None,
                    },
                ],
            },
            None => seq![
                RequestModel {
                    destination_chat_id: t.owner_chat_id,
                    text: c.text,
                    image_path: c.image_path,
                },
            ],
        },
    }
}

/// Find the first subscriber list of the given name.
pub fn lookup_list<'a>(table: &'a RoutingTable, name: &String) -> (r: Option<&'a Vec<i64>>)
    ensures
        match r {
            Some(ids) => spec_lookup(table@.lists, name@) == Some(ids@),
            None => spec_lookup(table@.lists, name@) is None,
        },
{
    let mut i: usize = 0;
    proof {
        assert(table@.lists.skip(0) =~= table@.lists);
    }
    while i < table.lists.len()
        invariant
            i <= table.lists.len(),
            spec_lookup(table@.lists, name@) == spec_lookup(
                table@.lists.skip(i as int),
                name@,
            ),
        decreases table.lists.len() - i,
    {
        proof {
            assert(table@.lists[i as int] == table.lists@[i as int]@);
            assert(table@.lists.skip(i as int).drop_first() =~= table@.lists.skip(i as int + 1));
        }
        if table.lists[i].name == *name {
            return Some(&table.lists[i].chat_ids);
        }
        i += 1;
    }
    None
}

fn clone_opt_string(o: &Option<String>) -> (r: Option<String>)
    ensures
        opt_string_view(r) == opt_string_view(*o),
{
    match o {
        Some(s) => Some(s.clone()),
        None => None,
    }
}

/// Build the diagnostic notice for a subscriber list that the table does not
/// know.
pub fn unknown_list_note(name: &str) -> (r: String)
    ensures
        r@ == spec_unknown_list_note(name@),
{
    let mut s = "Unknown subscriber list: ".to_owned();
    s.append(name);
    s
}

/// Resolve one command to its ordered delivery requests. Pure resolution: no
/// send happens here.
pub fn route(cmd: &DecodedCommand, table: &RoutingTable) -> (r: Vec<DeliveryRequest>)
    ensures
        r.deep_view() == route_model(cmd@, table@),
{
    let mut out: Vec<DeliveryRequest> = Vec::new();
    match &cmd.destination_chat_id {
        Some(id) => {
            out.push(
                DeliveryRequest {
                    destination_chat_id: *id,
                    text: cmd.text.clone(),
                    image_path: clone_opt_string(&cmd.image_path),
                },
            );
        },
        None => {
            match &cmd.subscriber_list_name {
                Some(name) => {
                    match lookup_list(table, name) {
                        Some(ids) => {
                            let ghost target = route_model(cmd@, table@);
                            proof {
                                assert(target.len() == ids@.len());
                            }
                            let mut i: usize = 0;
                            while i < ids.len()
                                invariant
                                    i <= ids.len(),
                                    target == route_model(cmd@, table@),
                                    target.len() == ids@.len(),
                                    forall|k: int|
                                        0 <= k < ids@.len() ==> #[trigger] target[k]
                                            == (RequestModel {
                                            destination_chat_id: ids@[k],
                                            text: cmd@.text,
                                            image_path: cmd@.image_path,
                                        }),
                                    out.deep_view() =~= target.take(i as int),
                                decreases ids.len() - i,
                            {
                                let req = DeliveryRequest {
                                    destination_chat_id: ids[i],
                                    text: cmd.text.clone(),
                                    image_path: clone_opt_string(&cmd.image_path),
                                };
                                proof {
                                    assert(req@ == target[i as int]);
                                }
                                let ghost prev_v = out@;
                                let ghost prev_dv = out.deep_view();
                                out.push(req);
                                proof {
                                    assert(out@ == prev_v.push(req));
                                    assert forall|k: int| 0 <= k < prev_dv.len() implies out.deep_view()[k] == prev_dv[k] by {
                                        assert(out@[k] == prev_v[k]);
                                    }
                                    assert(out.deep_view() =~= prev_dv.push(req@));
                                    assert(prev_dv.push(req@) =~= target.take(i as int + 1));
                                }
                                i += 1;
                            }
                            proof {
                                assert(target.take(ids@.len() as int) =~= target);
                            }
                        },
                        None => {
                            out.push(
                                DeliveryRequest {
                                    destination_chat_id: table.owner_chat_id,
                                    text: unknown_list_note(name.as_str()),
                                    image_path: None,
                                },
                            );
                        },
                    }
                },
                None => {
                    out.push(
                        DeliveryRequest {
                            destination_chat_id: table.owner_chat_id,
                            text: cmd.text.clone(),
                            image_path: clone_opt_string(&cmd.image_path),
                        },
                    );
                },
            }
        },
    }
    proof {
        assert(out.deep_view() =~= route_model(cmd@, table@));
    }
    out
}

/// Routing precedence: with both a direct chat id and a subscriber list set,
/// exactly the one direct request is produced; the list is ignored.
pub proof fn lemma_route_direct_precedence(c: CommandModel, t: TableModel)
    requires
        c.destination_chat_id is Some,
        c.subscriber_list_name is Some,
    ensures
        route_model(c, t) == seq![
            RequestModel {
                destination_chat_id: c.destination_chat_id->0,
                text: c.text,
                image_path: c.image_path,
            },
        ],
{
}

/// Routing fallback: with neither a direct chat id nor a subscriber list set,
/// exactly one request to the owner destination is produced, carrying the
/// original text unchanged.
pub proof fn lemma_route_owner_fallback(c: CommandModel, t: TableModel)
    requires
        c.destination_chat_id is None,
        c.subscriber_list_name is None,
    ensures
        route_model(c, t) == seq![
            RequestModel {
                destination_chat_id: t.owner_chat_id,
                text: c.text,
                image_path: c.image_path,
            },
        ],
{
}

/// Unknown subscriber list: with a subscriber list name absent from the
/// table, no request to any list member is produced; exactly one diagnostic
/// notice goes to the owner destination instead.
pub proof fn lemma_route_unknown_list(c: CommandModel, t: TableModel)
    requires
        c.destination_chat_id is None,
        c.subscriber_list_name is Some,
        spec_lookup(t.lists, c.subscriber_list_name->0) is None,
    ensures
        route_model(c, t) == seq![
            RequestModel {
                destination_chat_id: t.owner_chat_id,
                text: spec_unknown_list_note(c.subscriber_list_name->0),
                image_path: None,
            },
        ],
{
}

} // verus!

