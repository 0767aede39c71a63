use slack_forwarder::Filter;
use slack_forwarder::FilterChain;
use slack_forwarder::Polarity;

fn filter(pattern: &str, polarity: Polarity) -> Filter {
    Filter::new(pattern.to_string(), polarity).ok().unwrap()
}

#[test]
fn subtractive_rejects_iff_no_match() {
    let f = filter("^app::", Polarity::Subtractive);
    assert!(f.process("app::db").is_ok());
    assert!(f.process("app::http::client").is_ok());
    assert!(f.process("core::db").is_err());
    assert!(f.process("").is_err());
}

#[test]
fn additive_rejects_iff_match() {
    let f = filter("^noisy::", Polarity::Additive);
    assert!(f.process("noisy::module").is_err());
    assert!(f.process("core::module").is_ok());
}

#[test]
fn match_is_a_search_not_an_anchor() {
    let f = filter("db", Polarity::Subtractive);
    assert!(f.process("app::db::pool").is_ok());
    assert!(f.process("app::http").is_err());
}

#[test]
fn invalid_pattern_is_refused_at_construction() {
    assert!(Filter::new("(".to_string(), Polarity::Subtractive).is_err());
    assert!(Filter::new("[z-a]".to_string(), Polarity::Additive).is_err());
}

#[test]
fn chain_of_two_is_logical_and() {
    // Accepted only when both filters accept: target must match ^app:: and
    // must not match ::debug.
    let mut chain = FilterChain::single(filter("^app::", Polarity::Subtractive));
    chain.push(filter("::debug", Polarity::Additive));
    assert!(chain.process("app::db").is_ok());
    // Rejected by the first filter alone.
    assert!(chain.process("core::db").is_err());
    // Rejected by the second filter alone.
    assert!(chain.process("app::debug").is_err());
    // Rejected by both.
    assert!(chain.process("core::debug").is_err());
}

#[test]
fn empty_chain_accepts_everything() {
    let chain = FilterChain::empty();
    assert!(chain.process("anything").is_ok());
    assert!(chain.process("").is_ok());
}

#[test]
fn chain_order_does_not_change_the_result() {
    let mut ab = FilterChain::single(filter("^a", Polarity::Subtractive));
    ab.push(filter("b$", Polarity::Additive));
    let mut ba = FilterChain::single(filter("b$", Polarity::Additive));
    ba.push(filter("^a", Polarity::Subtractive));
    for subject in ["ab", "ba", "a", "b", "", "axb"] {
        assert_eq!(ab.process(subject).is_ok(), ba.process(subject).is_ok());
    }
}
