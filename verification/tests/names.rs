use shortage::names::{pick_free, random_short, MAX_ATTEMPTS, SHORT_LEN};
use shortage::registry::Registry;
use shortage::url::ShortenedUrl;

#[test]
fn the_bounds_of_name_generation() {
    assert_eq!(SHORT_LEN, 8);
    assert_eq!(MAX_ATTEMPTS, 10);
}

#[test]
fn random_short_gives_eight_letters_or_digits() {
    let registry = Registry::new();
    for _ in 0..100 {
        let name = random_short(&registry).expect("an empty registry has every name free");
        assert_eq!(name.len(), 8);
        assert!(name.bytes().all(|b| b.is_ascii_alphanumeric()));
    }
}

#[test]
fn random_short_is_not_always_the_same() {
    let registry = Registry::new();
    let first = random_short(&registry).expect("an empty registry has every name free");
    let different = (0..50).any(|_| random_short(&registry).as_ref() != Some(&first));
    assert!(different);
}

#[test]
fn random_short_gives_a_free_name() {
    let mut registry = Registry::new();
    for round in 0..100u32 {
        if let Some(name) = random_short(&registry) {
            assert!(!registry.contains_key(&name));
            registry.insert(
                name,
                ShortenedUrl {
                    owner: round,
                    target: String::new(),
                    uses: 0,
                    expiration: None,
                    max_uses: None,
                },
            );
        }
    }
    assert!(registry.len() > 0);
}

fn taken(names: &[&str]) -> Registry {
    let mut registry = Registry::new();
    for (i, name) in names.iter().enumerate() {
        registry.insert(
            name.to_string(),
            ShortenedUrl {
                owner: 1,
                target: format!("https://example.com/{i}"),
                uses: i,
                expiration: None,
                max_uses: None,
            },
        );
    }
    registry
}

fn candidates(names: &[&str]) -> Vec<String> {
    names.iter().map(|n| n.to_string()).collect()
}

#[test]
fn pick_free_takes_the_first_candidate_of_an_empty_registry() {
    let registry = Registry::new();
    assert_eq!(
        pick_free(&registry, candidates(&["aaaaaaaa", "bbbbbbbb"])),
        Some("aaaaaaaa".to_string())
    );
}

#[test]
fn pick_free_passes_over_taken_names() {
    let registry = taken(&["aaaaaaaa", "bbbbbbbb", "cccccccc"]);
    assert_eq!(
        pick_free(&registry, candidates(&["bbbbbbbb", "aaaaaaaa", "dddddddd", "eeeeeeee"])),
        Some("dddddddd".to_string())
    );
    assert_eq!(
        pick_free(&registry, candidates(&["cccccccc", "cccccccc", "cccccccD"])),
        Some("cccccccD".to_string())
    );
}

#[test]
fn pick_free_gives_up_when_every_candidate_is_taken() {
    let registry = taken(&["aaaaaaaa", "bbbbbbbb", "cccccccc"]);
    let all_taken = candidates(&[
        "aaaaaaaa", "bbbbbbbb", "cccccccc", "aaaaaaaa", "bbbbbbbb", "cccccccc", "aaaaaaaa", "bbbbbbbb",
        "cccccccc", "aaaaaaaa",
    ]);
    assert_eq!(all_taken.len(), MAX_ATTEMPTS);
    assert_eq!(pick_free(&registry, all_taken), None);
    assert_eq!(pick_free(&registry, Vec::new()), None);
}

#[test]
fn a_picked_name_never_replaces_a_record() {
    let mut registry = taken(&["aaaaaaaa", "bbbbbbbb"]);
    let picked = pick_free(&registry, candidates(&["aaaaaaaa", "bbbbbbbb", "aaaaaaaa", "Zz09Zz09"]))
        .expect("the last candidate is free");
    assert_eq!(picked, "Zz09Zz09");
    registry.insert(
        picked,
        ShortenedUrl {
            owner: 2,
            target: "https://example.org/".to_string(),
            uses: 0,
            expiration: None,
            max_uses: None,
        },
    );
    assert_eq!(registry.len(), 3);
    assert_eq!(registry.get("aaaaaaaa").map(|u| (u.owner, u.uses)), Some((1, 0)));
    assert_eq!(registry.get("bbbbbbbb").map(|u| (u.owner, u.uses)), Some((1, 1)));
    assert_eq!(registry.get("aaaaaaaa").map(|u| u.target.as_str()), Some("https://example.com/0"));
    assert_eq!(registry.get("bbbbbbbb").map(|u| u.target.as_str()), Some("https://example.com/1"));
    assert_eq!(registry.get("Zz09Zz09").map(|u| u.owner), Some(2));
}
