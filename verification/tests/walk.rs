use linkrusk::client::{Method, Reply};
use linkrusk::dto::{Link, ListData, Response, Short};
use linkrusk::host::{Effects, Navigation, Session, StorageChange};
use linkrusk::walk::{ListStep, ListWalk};

fn session() -> Session {
    Session { url: "https://l.example.com".to_string(), token: "abc".to_string() }
}

fn link(key: &str) -> Link {
    Link {
        short: Short {
            key: key.to_string(),
            no_https: format!("l.example.com/{}", key),
            full: format!("https://l.example.com/{}", key),
        },
        url: Some(format!("https://target/{}", key)),
        expiration: None,
    }
}

fn page(cursor: Option<&str>, list_complete: bool, links: Vec<Link>) -> Reply<ListData> {
    Reply::Answered {
        status: 200,
        envelope: Ok(Response {
            ok: true,
            msg: "ok".to_string(),
            data: Some(ListData { cursor: cursor.map(|c| c.to_string()), list_complete, links }),
        }),
    }
}

fn nothing() -> Effects {
    Effects { storage: StorageChange::Keep, alert: None, navigation: Navigation::Stay }
}

#[test]
fn list_walk() {
    let mut requests = 0;
    let walk = ListWalk::start();
    let first = walk.request(&session());
    requests += 1;
    assert_eq!(first.method, Method::Get);
    assert_eq!(first.url, "https://l.example.com/api/v1/list");
    assert_eq!(first.bearer, "abc");
    assert_eq!(first.cursor, None);

    let walk = match walk.absorb(page(Some("c1"), false, vec![link("A"), link("B")])) {
        ListStep::Next(walk) => walk,
        ListStep::Done { .. } => panic!("the walk ended on a page that is not the last"),
    };
    let second = walk.request(&session());
    requests += 1;
    assert_eq!(second.url, "https://l.example.com/api/v1/list");
    assert_eq!(second.cursor, Some("c1".to_string()));

    let end = walk.absorb(page(None, true, vec![link("C")]));
    assert_eq!(
        end,
        ListStep::Done { links: vec![link("A"), link("B"), link("C")], effects: nothing() }
    );
    assert_eq!(requests, 2);
}

#[test]
fn empty_list() {
    let end = ListWalk::start().absorb(page(None, true, vec![]));
    assert_eq!(end, ListStep::Done { links: vec![], effects: nothing() });
}

#[test]
fn list_walk_over_three_pages() {
    let mut walk = ListWalk::start();
    let pages = vec![
        page(Some("c1"), false, vec![link("A")]),
        page(Some("c2"), false, vec![]),
        page(Some("c3"), true, vec![link("B"), link("C")]),
    ];
    let mut cursors = Vec::new();
    let mut result = None;
    for reply in pages {
        cursors.push(walk.request(&session()).cursor);
        match walk.absorb(reply) {
            ListStep::Next(next) => walk = next,
            ListStep::Done { links, effects } => {
                result = Some((links, effects));
                break;
            }
        }
    }
    assert_eq!(cursors, vec![None, Some("c1".to_string()), Some("c2".to_string())]);
    assert_eq!(result, Some((vec![link("A"), link("B"), link("C")], nothing())));
}

#[test]
fn list_walk_goes_on_without_a_cursor() {
    let walk = match ListWalk::start().absorb(page(None, false, vec![link("A")])) {
        ListStep::Next(walk) => walk,
        ListStep::Done { .. } => panic!("the walk ended on a page that is not the last"),
    };
    assert_eq!(walk.links, vec![link("A")]);
    assert_eq!(walk.request(&session()).cursor, None);
}

#[test]
fn list_walk_refused_by_the_backend() {
    let reply = Reply::Answered {
        status: 401,
        envelope: Ok(Response { ok: false, msg: "unauthorized".to_string(), data: None }),
    };
    assert_eq!(
        ListWalk::start().absorb(reply),
        ListStep::Done {
            links: vec![],
            effects: Effects {
                storage: StorageChange::Keep,
                alert: Some("Failed to fetch the list.\n\nError: unauthorized".to_string()),
                navigation: Navigation::Stay,
            },
        }
    );
}

#[test]
fn list_walk_that_failed_gives_the_empty_list() {
    let walk = match ListWalk::start().absorb(page(Some("c1"), false, vec![link("A")])) {
        ListStep::Next(walk) => walk,
        ListStep::Done { .. } => panic!("the walk ended on a page that is not the last"),
    };
    let end = walk.absorb(Reply::Failed { error: "connection reset".to_string() });
    assert_eq!(
        end,
        ListStep::Done {
            links: vec![],
            effects: Effects {
                storage: StorageChange::Keep,
                alert: Some(
                    "Failed to fetch the list. Please try again later.\nconnection reset".to_string()
                ),
                navigation: Navigation::Stay,
            },
        }
    );
    let end = ListWalk::start()
        .absorb(Reply::Answered { status: 200, envelope: Err("missing field".to_string()) });
    assert_eq!(
        end,
        ListStep::Done {
            links: vec![],
            effects: Effects {
                storage: StorageChange::Keep,
                alert: Some(
                    "Failed to fetch the list. Please try again later.\nmissing field".to_string()
                ),
                navigation: Navigation::Stay,
            },
        }
    );
}
