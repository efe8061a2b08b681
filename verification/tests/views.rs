use linkrusk::client::{create_outcome, delete_outcome, Method, Reply};
use linkrusk::dto::{CreateData, Link, ListData, Response, Short};
use linkrusk::host::{Effects, Navigation, Session, StorageChange};
use linkrusk::views::{
    after_create, after_delete, after_update, confirmed_delete, delete_question, detail_state,
    detail_with, find_link, link_detail, link_path, list_cards, list_state, shown_url, Card,
    DetailState, LinkDetail, ListState,
};
use linkrusk::walk::{ListStep, ListWalk};

fn session() -> Session {
    Session { url: "https://l.example.com".to_string(), token: "abc".to_string() }
}

fn link(key: &str, url: Option<&str>, expiration: Option<i64>) -> Link {
    Link {
        short: Short {
            key: key.to_string(),
            no_https: format!("l.example.com/{}", key),
            full: format!("https://l.example.com/{}", key),
        },
        url: url.map(|u| u.to_string()),
        expiration,
    }
}

fn nothing() -> Effects {
    Effects { storage: StorageChange::Keep, alert: None, navigation: Navigation::Stay }
}

#[test]
fn list_view_shows_a_card_for_each_link() {
    let links = vec![link("A", Some("https://a"), None), link("B", None, Some(5))];
    assert_eq!(
        list_cards(&links),
        vec![
            Card { path: "/link/A".to_string(), key: "A".to_string(), url: "https://a".to_string() },
            Card {
                path: "/link/B".to_string(),
                key: "B".to_string(),
                url: "Failed to display".to_string()
            },
        ]
    );
    assert_eq!(list_cards(&vec![]), vec![]);
    assert_eq!(link_path("xY9"), "/link/xY9");
    assert_eq!(shown_url(&links[0]), "https://a");
    assert_eq!(shown_url(&links[1]), "Failed to display");
}

#[test]
fn list_view_states() {
    let links = vec![link("A", None, None)];
    assert_eq!(list_state(None), ListState::Loading);
    assert_eq!(list_state(Some(&vec![])), ListState::Empty);
    assert_eq!(list_state(Some(&links)), ListState::Cards);
    assert_eq!(ListState::Loading.notice(), Some("Loading..."));
    assert_eq!(ListState::Empty.notice(), Some("No links found."));
    assert_eq!(ListState::Cards.notice(), None);
}

#[test]
fn find_link_gives_the_first_with_the_key() {
    let links = vec![
        link("A", Some("https://a"), None),
        link("B", Some("https://first"), None),
        link("B", Some("https://second"), None),
    ];
    assert_eq!(find_link(&links, "B"), Some(&links[1]));
    assert_eq!(find_link(&links, "A"), Some(&links[0]));
    assert_eq!(find_link(&links, "b"), None);
    assert_eq!(find_link(&links, ""), None);
    assert_eq!(find_link(&vec![], "A"), None);
}

#[test]
fn detail_view_states() {
    let links = vec![link("A", None, None)];
    assert_eq!(detail_state(None, "A"), DetailState::Loading);
    assert_eq!(detail_state(Some(&links), "A"), DetailState::Form);
    assert_eq!(detail_state(Some(&links), "B"), DetailState::NotFound);
    assert_eq!(DetailState::Loading.notice(), Some("Loading..."));
    assert_eq!(DetailState::NotFound.notice(), Some("Link not found."));
    assert_eq!(DetailState::Form.notice(), None);
}

#[test]
fn edit_form_starts_with_the_link() {
    assert_eq!(
        link_detail(&link("xY9", Some("https://target"), Some(0))),
        LinkDetail {
            key: "xY9".to_string(),
            url: "https://target".to_string(),
            expiration: "1970-01-01 00:00:00 +0000".to_string(),
        }
    );
    assert_eq!(
        link_detail(&link("xY9", None, None)),
        LinkDetail {
            key: "xY9".to_string(),
            url: "Failed to display".to_string(),
            expiration: "".to_string(),
        }
    );
    assert_eq!(link_detail(&link("xY9", None, Some(i64::MAX))).expiration, "");
    assert_eq!(
        detail_with(&link("xY9", Some("https://target"), Some(7)), Some("then".to_string())),
        LinkDetail {
            key: "xY9".to_string(),
            url: "https://target".to_string(),
            expiration: "then".to_string(),
        }
    );
    assert_eq!(detail_with(&link("xY9", None, Some(7)), None).expiration, "");
}

#[test]
fn after_a_create() {
    assert_eq!(after_create(""), nothing());
    assert_eq!(
        after_create("xY9"),
        Effects {
            storage: StorageChange::Keep,
            alert: Some("Link created: xY9".to_string()),
            navigation: Navigation::Visit("/link/xY9".to_string()),
        }
    );
}

#[test]
fn after_an_update() {
    assert_eq!(after_update(false), nothing());
    assert_eq!(
        after_update(true),
        Effects {
            storage: StorageChange::Keep,
            alert: Some("Link updated".to_string()),
            navigation: Navigation::Reload,
        }
    );
}

#[test]
fn delete_with_confirm() {
    assert_eq!(delete_question(), "Are you sure you want to delete this link?");
    let request = confirmed_delete(true, &session(), "xY9").unwrap();
    assert_eq!(request.method, Method::Delete);
    assert_eq!(request.url, "https://l.example.com/api/v1/delete");
    assert_eq!(request.bearer, "abc");
    assert_eq!(request.json, Some("{\"short\":\"xY9\"}".to_string()));

    let reply: Reply<()> = Reply::Answered {
        status: 200,
        envelope: Ok(Response { ok: true, msg: "ok".to_string(), data: None }),
    };
    let (deleted, effects) = delete_outcome(reply);
    assert!(deleted);
    assert_eq!(effects, nothing());
    assert_eq!(
        after_delete(deleted),
        Effects {
            storage: StorageChange::Keep,
            alert: Some("Link deleted".to_string()),
            navigation: Navigation::Visit("/".to_string()),
        }
    );

    assert_eq!(confirmed_delete(false, &session(), "xY9"), None);
    assert_eq!(after_delete(false), nothing());
}

#[test]
fn created_key_is_found_in_the_list() {
    let reply = Reply::Answered {
        status: 200,
        envelope: Ok(Response {
            ok: true,
            msg: "ok".to_string(),
            data: Some(CreateData { short: "l.example.com/xY9".to_string() }),
        }),
    };
    let (short, _) = create_outcome("https://l.example.com", reply);
    let page = Reply::Answered {
        status: 200,
        envelope: Ok(Response {
            ok: true,
            msg: "ok".to_string(),
            data: Some(ListData {
                cursor: None,
                list_complete: true,
                links: vec![link("old", None, None), link("xY9", Some("https://target"), None)],
            }),
        }),
    };
    let links = match ListWalk::start().absorb(page) {
        ListStep::Done { links, .. } => links,
        ListStep::Next(_) => panic!("the walk went on after the last page"),
    };
    assert!(links.iter().any(|l| l.short.key == short));
    assert_eq!(find_link(&links, &short), Some(&links[1]));
    assert_eq!(detail_state(Some(&links), &short), DetailState::Form);
}
