use expense_manager::ledger::Ledger;
use expense_manager::session::{Mode, Notice, Session};

/// Feeds each line to the session the way an interactive driver does: an
/// amount prompt gets the line parsed as a number, any other prompt the text.
fn feed(s: &mut Session<f64>, lines: &[&str]) -> Vec<Notice<String, f64>> {
    let mut out = Vec::new();
    for line in lines {
        if s.expects_amount() {
            s.enter_amount(line.trim().parse::<f64>().ok());
        } else {
            out.extend(s.enter_line(line));
        }
    }
    out
}

fn entries(s: &Session<f64>) -> Vec<(String, f64)> {
    s.ledger().entries()
}

fn fresh() -> Session<f64> {
    Session::seeded(50.0, 29.99, 32.17)
}

fn has_entry(out: &[Notice<String, f64>], name: &str, v: f64) -> bool {
    out.iter().any(|n| match n {
        Notice::Entry(k, a) => k == name && *a == v,
        _ => false,
    })
}

fn count_entries(out: &[Notice<String, f64>]) -> usize {
    out.iter().filter(|n| matches!(n, Notice::Entry(_, _))).count()
}

#[test]
fn add_then_view_shows_entry() {
    let mut s = fresh();
    let out = feed(&mut s, &["2", "coffee", "3.5", "1"]);
    assert!(has_entry(&out, "coffee", 3.5));
    assert_eq!(format!("{} {}", "coffee", 3.5f64), "coffee 3.5");
}

#[test]
fn add_twice_overwrites() {
    let mut s = fresh();
    feed(&mut s, &["2", "coffee", "3.5", "2", "coffee", "4.0"]);
    let es = entries(&s);
    let named: Vec<_> = es.iter().filter(|e| e.0 == "coffee").collect();
    assert_eq!(named.len(), 1);
    assert_eq!(named[0].1, 4.0);
    assert_eq!(es.len(), 4);
}

#[test]
fn remove_absent_reprompts() {
    let mut s = fresh();
    let before = entries(&s);
    let out = feed(&mut s, &["3", "nonexistent"]);
    assert_eq!(entries(&s), before);
    assert_eq!(s.mode(), Mode::RemoveName);
    assert!(matches!(out.last(), Some(Notice::NotRemoved(k)) if k == "nonexistent"));
}

#[test]
fn edit_absent_reprompts() {
    let mut s = fresh();
    let before = entries(&s);
    let out = feed(&mut s, &["4", "nonexistent"]);
    assert_eq!(entries(&s), before);
    assert_eq!(s.mode(), Mode::EditName);
    assert!(matches!(out.last(), Some(Notice::NotFound(k)) if k == "nonexistent"));
}

#[test]
fn quit_at_name_prompts() {
    for choice in ["2", "3", "4"] {
        let mut s = fresh();
        let before = entries(&s);
        let out = feed(&mut s, &[choice, "q"]);
        assert_eq!(s.mode(), Mode::Menu);
        assert_eq!(entries(&s), before);
        assert_eq!(out.len(), 1);
    }
    let mut s = fresh();
    feed(&mut s, &["2", "  Q  "]);
    assert_eq!(s.mode(), Mode::Menu);
    assert_eq!(entries(&s).len(), 3);
}

#[test]
fn names_are_trimmed_and_lowercased() {
    let mut s = fresh();
    feed(&mut s, &["2", "  Coffee ", "2.0"]);
    assert!(entries(&s).iter().any(|e| e.0 == "coffee" && e.1 == 2.0));
    let out = feed(&mut s, &["3", "coffee"]);
    assert!(matches!(out.last(), Some(Notice::Removed(k, v)) if k == "coffee" && *v == 2.0));
    assert_eq!(s.mode(), Mode::Menu);
    assert!(!s.ledger().contains_key("coffee"));
}

#[test]
fn fresh_start_lists_seed_entries() {
    let mut s = fresh();
    let out = feed(&mut s, &["1"]);
    assert_eq!(count_entries(&out), 3);
    assert!(has_entry(&out, "supermarket purchase", 50.0));
    assert!(has_entry(&out, "telephone bill", 29.99));
    assert!(has_entry(&out, "electricity", 32.17));
    assert_eq!(format!("{} {}", "supermarket purchase", 50.0f64), "supermarket purchase 50");
}

#[test]
fn full_lifecycle() {
    let mut s = fresh();
    let out = feed(&mut s, &["2", "gym", "20.0", "1"]);
    assert_eq!(count_entries(&out), 4);
    assert!(has_entry(&out, "gym", 20.0));
    let out = feed(&mut s, &["4", "gym", "25.0", "1"]);
    assert_eq!(count_entries(&out), 4);
    assert!(has_entry(&out, "gym", 25.0));
    let out = feed(&mut s, &["3", "gym", "1"]);
    assert!(matches!(&out[1], Notice::Removed(k, v) if k == "gym" && *v == 25.0));
    assert_eq!(count_entries(&out), 3);
    assert!(!out.iter().any(|n| matches!(n, Notice::Entry(k, _) if k == "gym")));
}

#[test]
fn invalid_amount_retries() {
    let mut s = fresh();
    feed(&mut s, &["2", "book", "abc"]);
    assert_eq!(s.mode(), Mode::AddAmount);
    assert!(!s.ledger().contains_key("book"));
    assert_eq!(entries(&s).len(), 3);
    feed(&mut s, &["12.99"]);
    assert_eq!(s.mode(), Mode::Menu);
    assert_eq!(s.ledger().get("book"), Some(12.99));
}

#[test]
fn menu_echoes_and_rejects_unknown_choice() {
    let mut s = fresh();
    let out = feed(&mut s, &["  Hello "]);
    assert_eq!(out.len(), 2);
    assert!(matches!(&out[0], Notice::Echo(c) if c == "hello"));
    assert!(matches!(&out[1], Notice::InvalidCommand));
    assert_eq!(s.mode(), Mode::Menu);
}

#[test]
fn menu_choices_open_prompts() {
    let mut s = fresh();
    feed(&mut s, &["2"]);
    assert_eq!(s.mode(), Mode::AddName);
    let mut s = fresh();
    feed(&mut s, &[" 3\n"]);
    assert_eq!(s.mode(), Mode::RemoveName);
    let mut s = fresh();
    feed(&mut s, &["4"]);
    assert_eq!(s.mode(), Mode::EditName);
    let mut s = fresh();
    let out = feed(&mut s, &["Q\n"]);
    assert!(s.is_halted());
    assert!(matches!(&out[0], Notice::Echo(c) if c == "q"));
}

#[test]
fn view_of_empty_ledger() {
    let mut s: Session<f64> = Session::new(Ledger::new());
    let out = feed(&mut s, &["1"]);
    assert_eq!(out.len(), 2);
    assert!(matches!(&out[1], Notice::NoEntries));
}

#[test]
fn empty_name_is_a_key() {
    let mut s = fresh();
    feed(&mut s, &["2", "   ", "7"]);
    assert_eq!(s.ledger().get(""), Some(7.0));
}

#[test]
fn edit_reprompts_until_number_then_overwrites() {
    let mut s = fresh();
    feed(&mut s, &["4", "missing", "Electricity", "x", "q", "40"]);
    assert_eq!(s.mode(), Mode::Menu);
    assert_eq!(s.ledger().get("electricity"), Some(40.0));
    assert_eq!(entries(&s).len(), 3);
}

#[test]
fn remove_reprompts_until_found() {
    let mut s = fresh();
    let out = feed(&mut s, &["3", "gas", "TELEPHONE BILL"]);
    assert!(matches!(&out[1], Notice::NotRemoved(k) if k == "gas"));
    assert!(matches!(&out[2], Notice::Removed(k, v) if k == "telephone bill" && *v == 29.99));
    assert_eq!(s.mode(), Mode::Menu);
    assert_eq!(entries(&s).len(), 2);
}

#[test]
fn ledger_insert_get_remove() {
    let mut l: Ledger<i64> = Ledger::new();
    assert!(l.is_empty());
    l.insert("a".to_string(), 1);
    l.insert("b".to_string(), 2);
    l.insert("a".to_string(), 3);
    assert_eq!(l.len(), 2);
    assert_eq!(l.entries(), vec![("a".to_string(), 3), ("b".to_string(), 2)]);
    assert_eq!(l.remove("a"), Some(3));
    assert_eq!(l.remove("a"), None);
    assert_eq!(l.get("b"), Some(2));
    assert!(!l.contains_key("a"));
}

#[test]
fn normalize_trims_and_lowercases() {
    assert_eq!(expense_manager::text::normalize("  Coffee \n"), "coffee");
    assert_eq!(expense_manager::text::normalize("\tÉCLAIR\u{3000}"), "éclair");
    assert_eq!(expense_manager::text::normalize("   "), "");
}

#[test]
fn token_answers_skip_normalization() {
    let mut s = fresh();
    let out = s.enter_token("1".to_string());
    assert_eq!(out.len(), 4);
    let out = s.enter_token(" 1".to_string());
    assert!(matches!(&out[1], Notice::InvalidCommand));
    s.enter_token("2".to_string());
    s.enter_token("Tea".to_string());
    s.enter_amount(Some(1.25));
    assert_eq!(s.ledger().get("Tea"), Some(1.25));
    assert_eq!(s.ledger().get("tea"), None);
}
