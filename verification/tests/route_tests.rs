use relay_core::decode::DecodedCommand;
use relay_core::route::{route, unknown_list_note, RoutingTable, SubscriberList};

fn table() -> RoutingTable {
    RoutingTable {
        owner_chat_id: 99,
        lists: vec![
            SubscriberList { name: "ops".to_string(), chat_ids: vec![1, 2, 3] },
            SubscriberList { name: "dev".to_string(), chat_ids: vec![7] },
        ],
    }
}

fn cmd(
    chat_id: Option<i64>,
    list: Option<&str>,
    text: &str,
    image: Option<&str>,
) -> DecodedCommand {
    DecodedCommand {
        destination_chat_id: chat_id,
        subscriber_list_name: list.map(|s| s.to_string()),
        text: text.to_string(),
        image_path: image.map(|s| s.to_string()),
    }
}

#[test]
fn direct_chat_id_wins_over_list() {
    let reqs = route(&cmd(Some(555), Some("ops"), "hello", None), &table());
    assert_eq!(reqs.len(), 1);
    assert_eq!(reqs[0].destination_chat_id, 555);
    assert_eq!(reqs[0].text, "hello");
    assert_eq!(reqs[0].image_path, None);
}

#[test]
fn known_list_fans_out_in_table_order() {
    let reqs = route(&cmd(None, Some("ops"), "alert", None), &table());
    assert_eq!(reqs.len(), 3);
    let ids: Vec<i64> = reqs.iter().map(|r| r.destination_chat_id).collect();
    assert_eq!(ids, vec![1, 2, 3]);
    for r in &reqs {
        assert_eq!(r.text, "alert");
        assert_eq!(r.image_path, None);
    }
}

#[test]
fn unknown_list_sends_one_owner_notice() {
    let reqs = route(&cmd(None, Some("nobody"), "alert", None), &table());
    assert_eq!(reqs.len(), 1);
    assert_eq!(reqs[0].destination_chat_id, 99);
    assert_eq!(reqs[0].text, "Unknown subscriber list: nobody");
    assert_eq!(reqs[0].image_path, None);
}

#[test]
fn no_target_falls_back_to_owner_unchanged() {
    let reqs = route(&cmd(None, None, "plain", None), &table());
    assert_eq!(reqs.len(), 1);
    assert_eq!(reqs[0].destination_chat_id, 99);
    assert_eq!(reqs[0].text, "plain");
}

#[test]
fn image_path_is_carried_unchanged() {
    let reqs = route(&cmd(Some(5), None, "pic", Some("/tmp/x.png")), &table());
    assert_eq!(reqs.len(), 1);
    assert_eq!(reqs[0].image_path, Some("/tmp/x.png".to_string()));

    let fanned = route(&cmd(None, Some("dev"), "pic", Some("/tmp/x.png")), &table());
    assert_eq!(fanned.len(), 1);
    assert_eq!(fanned[0].destination_chat_id, 7);
    assert_eq!(fanned[0].image_path, Some("/tmp/x.png".to_string()));
}

#[test]
fn empty_list_yields_no_requests() {
    let t = RoutingTable {
        owner_chat_id: 99,
        lists: vec![SubscriberList { name: "quiet".to_string(), chat_ids: Vec::new() }],
    };
    let reqs = route(&cmd(None, Some("quiet"), "x", None), &t);
    assert_eq!(reqs.len(), 0);
}

#[test]
fn note_template_is_exact() {
    assert_eq!(unknown_list_note("ops"), "Unknown subscriber list: ops");
    assert_eq!(unknown_list_note(""), "Unknown subscriber list: ");
}
