use mbzlists_resolvers::matching::{Candidate, Policy};
use mbzlists_resolvers::mbzlists::Track;

fn requested() -> Track {
    Track {
        title: String::from("Yesterday"),
        creator: String::from("The Beatles"),
    }
}

fn case_swapped() -> Candidate {
    Candidate {
        external_id: String::from("t1"),
        title: String::from("yesterday"),
        primary_artist: String::from("the beatles"),
    }
}

#[test]
fn strict_rejects_case_swapped_candidate() {
    assert!(!Policy::Strict.verify(&requested(), &case_swapped()));
}

#[test]
fn folded_accepts_case_swapped_candidate() {
    assert!(Policy::CaseFolded.verify(&requested(), &case_swapped()));
}

#[test]
fn strict_accepts_identical_candidate() {
    let candidate = Candidate {
        external_id: String::from("t1"),
        title: String::from("Yesterday"),
        primary_artist: String::from("The Beatles"),
    };
    assert!(Policy::Strict.verify(&requested(), &candidate));
}

#[test]
fn folded_rejects_different_title() {
    let candidate = Candidate {
        external_id: String::from("t1"),
        title: String::from("Yesterday (Remastered)"),
        primary_artist: String::from("The Beatles"),
    };
    assert!(!Policy::CaseFolded.verify(&requested(), &candidate));
}

#[test]
fn strict_rejects_different_artist() {
    let candidate = Candidate {
        external_id: String::from("t1"),
        title: String::from("Yesterday"),
        primary_artist: String::from("A Tribute Band"),
    };
    assert!(!Policy::Strict.verify(&requested(), &candidate));
}
