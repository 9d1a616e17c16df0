use greetings::Greeting;
use greetings::str_eq_ignore_case;

#[test]
fn greeting_foo() {
    let g = Greeting;
    assert_eq!(g.get_greeting("foo"), "Hello, foo!");
}

#[test]
fn greeting_empty_name() {
    let g = Greeting;
    assert_eq!(g.get_greeting(""), "Hello, !");
}

#[test]
fn farewell_bar() {
    let g = Greeting;
    assert_eq!(g.get_farewell("bar"), "Goodbye, bar. Have a great day!");
}

#[test]
fn farewell_empty_name() {
    let g = Greeting;
    assert_eq!(g.get_farewell(""), "Goodbye, . Have a great day!");
}

#[test]
fn personalized_morning() {
    let g = Greeting;
    assert_eq!(g.get_personalized_greeting("baz", "morning"), "Good morning, baz");
}

#[test]
fn personalized_evening_uppercase() {
    let g = Greeting;
    assert_eq!(g.get_personalized_greeting("baz", "EVENING"), "Good evening, baz");
}

#[test]
fn personalized_unrecognized() {
    let g = Greeting;
    assert_eq!(g.get_personalized_greeting("baz", "noon"), "Good day, baz");
}

#[test]
fn personalized_casing_variants() {
    let g = Greeting;
    assert_eq!(g.get_personalized_greeting("ada", "Morning"), "Good morning, ada");
    assert_eq!(g.get_personalized_greeting("ada", "mOrNiNg"), "Good morning, ada");
    assert_eq!(g.get_personalized_greeting("ada", "MORNING"), "Good morning, ada");
    assert_eq!(g.get_personalized_greeting("ada", "AFTERNOON"), "Good afternoon, ada");
    assert_eq!(g.get_personalized_greeting("ada", "aFtErNoOn"), "Good afternoon, ada");
    assert_eq!(g.get_personalized_greeting("ada", "Evening"), "Good evening, ada");
}

#[test]
fn personalized_fallback_cases() {
    let g = Greeting;
    assert_eq!(g.get_personalized_greeting("ada", ""), "Good day, ada");
    assert_eq!(g.get_personalized_greeting("ada", " morning"), "Good day, ada");
    assert_eq!(g.get_personalized_greeting("ada", "morning "), "Good day, ada");
    assert_eq!(g.get_personalized_greeting("ada", "mornings"), "Good day, ada");
    assert_eq!(g.get_personalized_greeting("ada", "night"), "Good day, ada");
}

#[test]
fn personalized_keeps_name_verbatim() {
    let g = Greeting;
    assert_eq!(g.get_personalized_greeting("", "evening"), "Good evening, ");
    assert_eq!(g.get_personalized_greeting("  Ada  ", "noon"), "Good day,   Ada  ");
}

#[test]
fn case_insensitive_equality() {
    assert!(str_eq_ignore_case("morning", "MORNING"));
    assert!(str_eq_ignore_case("", ""));
    assert!(str_eq_ignore_case("Hello, World!", "hello, world!"));
    assert!(!str_eq_ignore_case("morning", "mornin"));
    assert!(!str_eq_ignore_case("morning", " morning"));
}
