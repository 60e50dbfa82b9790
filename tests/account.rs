use megalodon::dispatch::{generator, Client, DialectAccount, SNS};
use megalodon::entities::{Account, Emoji, Field, Role};
use megalodon::error::Error;
use megalodon::friendica;
use megalodon::gotosocial;
use megalodon::time::UtcDateTime;

fn emoji(code: &str) -> Emoji {
    Emoji {
        shortcode: code.to_string(),
        static_url: format!("https://example.com/{}.png", code),
        url: format!("https://example.com/{}.gif", code),
        visible_in_picker: true,
        category: None,
    }
}

fn canonical(id: &str, group: Option<bool>, moved: Option<Box<Account>>) -> Account {
    Account {
        id: id.to_string(),
        username: "alice".to_string(),
        acct: "alice@example.com".to_string(),
        display_name: "Alice".to_string(),
        locked: false,
        discoverable: Some(true),
        group,
        noindex: Some(true),
        suspended: Some(false),
        limited: Some(false),
        created_at: UtcDateTime { secs: 1577934245, nanos: 0 },
        followers_count: -1,
        following_count: 7,
        statuses_count: 42,
        note: "hello".to_string(),
        url: "https://example.com/@alice".to_string(),
        avatar: "a.png".to_string(),
        avatar_static: "as.png".to_string(),
        header: "h.png".to_string(),
        header_static: "hs.png".to_string(),
        emojis: vec![emoji("a"), emoji("b"), emoji("c")],
        moved,
        fields: vec![Field {
            name: "site".to_string(),
            value: "example.com".to_string(),
            verified_at: None,
            verified: Some(false),
        }],
        bot: false,
        source: None,
        role: Some(Role { name: "admin".to_string() }),
        mute_expires_at: Some(UtcDateTime { secs: 10, nanos: 0 }),
    }
}

fn chain(depth: u32) -> Account {
    let mut a = canonical("0", Some(false), None);
    for i in 1..=depth {
        a = canonical(&i.to_string(), Some(false), Some(Box::new(a)));
    }
    a
}

fn depth(a: &Account) -> u32 {
    match &a.moved {
        Some(m) => 1 + depth(m),
        None => 0,
    }
}

fn friendica_account(id: &str, group: bool) -> friendica::Account {
    friendica::Account::from_canonical(canonical(id, Some(group), None))
}

#[test]
fn friendica_fields_map_one_to_one() {
    let f = friendica_account("9", true);
    assert_eq!(f.id, "9");
    assert!(f.group);
    assert_eq!(f.followers_count, -1);
    let c = f.into_canonical();
    assert_eq!(c.id, "9");
    assert_eq!(c.username, "alice");
    assert_eq!(c.acct, "alice@example.com");
    assert_eq!(c.discoverable, Some(true));
    assert_eq!(c.group, Some(true));
    assert_eq!(c.noindex, None);
    assert_eq!(c.suspended, None);
    assert_eq!(c.limited, None);
    assert_eq!(c.role, None);
    assert_eq!(c.mute_expires_at, None);
    assert_eq!(c.followers_count, -1);
    assert_eq!(c.following_count, 7);
    assert_eq!(c.statuses_count, 42);
    assert_eq!(c.created_at, UtcDateTime { secs: 1577934245, nanos: 0 });
}

#[test]
fn friendica_round_trip_is_lossless() {
    let c = canonical("1", Some(true), Some(Box::new(canonical("2", None, None))));
    let c1 = friendica::Account::from_canonical(c).into_canonical();
    let c2 = friendica::Account::from_canonical(canonical_copy(&c1)).into_canonical();
    assert_eq!(c1, c2);
    assert_eq!(c1.moved.as_ref().unwrap().group, Some(false));
}

fn canonical_copy(a: &Account) -> Account {
    Account {
        id: a.id.clone(),
        username: a.username.clone(),
        acct: a.acct.clone(),
        display_name: a.display_name.clone(),
        locked: a.locked,
        discoverable: a.discoverable,
        group: a.group,
        noindex: a.noindex,
        suspended: a.suspended,
        limited: a.limited,
        created_at: a.created_at,
        followers_count: a.followers_count,
        following_count: a.following_count,
        statuses_count: a.statuses_count,
        note: a.note.clone(),
        url: a.url.clone(),
        avatar: a.avatar.clone(),
        avatar_static: a.avatar_static.clone(),
        header: a.header.clone(),
        header_static: a.header_static.clone(),
        emojis: a.emojis.clone(),
        moved: a.moved.as_ref().map(|m| Box::new(canonical_copy(m))),
        fields: a.fields.clone(),
        bot: a.bot,
        source: a.source.clone(),
        role: a.role.clone(),
        mute_expires_at: a.mute_expires_at,
    }
}

#[test]
fn gotosocial_round_trip_is_lossless() {
    let g = gotosocial::Account::from_canonical(canonical("3", Some(true), None));
    assert_eq!(g.enable_rss, None);
    let c1 = g.clone().into_canonical();
    let c2 = gotosocial::Account::from_canonical(canonical_copy(&c1)).into_canonical();
    assert_eq!(c1, c2);
    let back = gotosocial::Account::from_canonical(c2);
    assert_eq!(back, g);
}

#[test]
fn gotosocial_keeps_its_fields_and_drops_others() {
    let c = gotosocial::Account::from_canonical(canonical("4", Some(true), None)).into_canonical();
    assert_eq!(c.group, None);
    assert_eq!(c.noindex, None);
    assert_eq!(c.limited, None);
    assert!(c.moved.is_none());
    assert_eq!(c.suspended, Some(false));
    assert_eq!(c.role, Some(Role { name: "admin".to_string() }));
    assert_eq!(c.mute_expires_at, Some(UtcDateTime { secs: 10, nanos: 0 }));
}

#[test]
fn defaults_are_deterministic() {
    let a = friendica::Account::from_canonical(canonical("5", None, None)).into_canonical();
    let b = friendica::Account::from_canonical(canonical("5", None, None)).into_canonical();
    assert_eq!(a.group, Some(false));
    assert_eq!(a, b);
}

#[test]
fn emoji_order_is_kept() {
    let f = friendica_account("6", false);
    let codes: Vec<String> = f.emojis.iter().map(|e| e.shortcode.clone()).collect();
    assert_eq!(codes, vec!["a", "b", "c"]);
    let c = f.into_canonical();
    let codes: Vec<String> = c.emojis.iter().map(|e| e.shortcode.clone()).collect();
    assert_eq!(codes, vec!["a", "b", "c"]);
    let g = gotosocial::Account::from_canonical(c).into_canonical();
    let codes: Vec<String> = g.emojis.iter().map(|e| e.shortcode.clone()).collect();
    assert_eq!(codes, vec!["a", "b", "c"]);
}

#[test]
fn moved_chains_convert_at_each_depth() {
    for n in 0..5 {
        let c = friendica::Account::from_canonical(chain(n)).into_canonical();
        assert_eq!(depth(&c), n);
        assert_eq!(c.id, n.to_string());
        let mut cur = &c;
        for k in (0..n).rev() {
            cur = cur.moved.as_ref().unwrap();
            assert_eq!(cur.id, k.to_string());
            assert_eq!(cur.group, Some(false));
        }
    }
}

#[test]
fn group_survives_friendica_but_not_gotosocial() {
    let c = canonical("7", Some(true), None);
    assert_eq!(c.group, Some(true));
    let via_friendica = friendica::Account::from_canonical(canonical_copy(&c)).into_canonical();
    assert_eq!(via_friendica.group, Some(true));
    let via_gotosocial = gotosocial::Account::from_canonical(c).into_canonical();
    assert_eq!(via_gotosocial.group, None);
}

#[test]
fn dialect_names_select_dialects() {
    assert_eq!(SNS::from_name("mastodon"), Ok(SNS::Mastodon));
    assert_eq!(SNS::from_name("pleroma"), Ok(SNS::Pleroma));
    assert_eq!(SNS::from_name("friendica"), Ok(SNS::Friendica));
    assert_eq!(SNS::from_name("gotosocial"), Ok(SNS::Gotosocial));
    assert_eq!(
        SNS::from_name("misskey"),
        Err(Error::UnsupportedDialect { name: "misskey".to_string() })
    );
}

#[test]
fn client_converts_in_its_dialect() {
    let client: Client = generator(
        SNS::Friendica,
        "https://example.com".to_string(),
        Some("token".to_string()),
        None,
    );
    assert_eq!(client.base_url, "https://example.com");
    assert_eq!(client.access_token, Some("token".to_string()));
    let raw = client.account_from_canonical(canonical("8", None, None));
    assert!(matches!(raw, DialectAccount::Friendica(_)));
    let c = client.account_into_canonical(raw).unwrap();
    assert_eq!(c.group, Some(false));
    assert_eq!(c.noindex, None);

    let other = DialectAccount::Gotosocial(gotosocial::Account::from_canonical(canonical("8", None, None)));
    assert!(matches!(
        client.account_into_canonical(other),
        Err(Error::ConversionInvariant { .. })
    ));

    let mastodon = generator(SNS::Mastodon, "https://m.example".to_string(), None, None);
    let raw = mastodon.account_from_canonical(canonical("9", Some(true), None));
    let c = mastodon.account_into_canonical(raw).unwrap();
    assert_eq!(c, canonical("9", Some(true), None));
}

#[test]
fn cyclic_moved_chain_is_refused() {
    let looped = canonical("1", Some(false), Some(Box::new(canonical("2", None, Some(Box::new(canonical("1", None, None)))))));
    assert!(matches!(
        megalodon::entities::check_moved_chain(&looped),
        Err(Error::ConversionInvariant { .. })
    ));
    let client = generator(SNS::Friendica, "https://f.example".to_string(), None, None);
    let raw = client.account_from_canonical(looped);
    assert!(matches!(
        client.account_into_canonical(raw),
        Err(Error::ConversionInvariant { .. })
    ));
    let self_moved = canonical("5", None, Some(Box::new(canonical("5", None, None))));
    let mastodon = generator(SNS::Mastodon, "https://m.example".to_string(), None, None);
    assert!(matches!(
        mastodon.account_into_canonical(DialectAccount::Default(self_moved)),
        Err(Error::ConversionInvariant { .. })
    ));
    for n in 0..6 {
        assert_eq!(megalodon::entities::check_moved_chain(&chain(n)), Ok(()));
        let raw = client.account_from_canonical(chain(n));
        let c = client.account_into_canonical(raw).unwrap();
        assert_eq!(depth(&c), n);
    }
}
