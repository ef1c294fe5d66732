use rusty_cheddar::attr::{inspect_docs, inspect_no_mangle, inspect_repr_c};
use rusty_cheddar::{check_no_mangle, check_repr_c, parse_attr, retrieve_docstring, Attribute};

fn repr(words: &[&str]) -> Attribute {
    Attribute::Repr(words.iter().map(|w| w.to_string()).collect())
}

fn doc(text: &str) -> Attribute {
    Attribute::Doc(text.to_string())
}

#[test]
fn repr_c_needs_c_as_first_word() {
    assert!(check_repr_c(&repr(&["C"])));
    assert!(check_repr_c(&repr(&["C", "packed"])));
    assert!(!check_repr_c(&repr(&["packed", "C"])));
    assert!(!check_repr_c(&repr(&["u8"])));
    assert!(!check_repr_c(&repr(&["c"])));
    assert!(!check_repr_c(&repr(&["C "])));
    assert!(!check_repr_c(&repr(&[])));
    assert!(!check_repr_c(&Attribute::NoMangle));
    assert!(!check_repr_c(&doc("C")));
    assert!(!check_repr_c(&Attribute::Other));
}

#[test]
fn no_mangle_is_the_bare_word() {
    assert!(check_no_mangle(&Attribute::NoMangle));
    assert!(!check_no_mangle(&repr(&["C"])));
    assert!(!check_no_mangle(&doc("no_mangle")));
    assert!(!check_no_mangle(&Attribute::Other));
}

#[test]
fn docstring_gets_one_newline() {
    assert_eq!(retrieve_docstring(&doc("/// A point.")), "/// A point.\n");
    assert_eq!(retrieve_docstring(&doc("")), "\n");
    assert_eq!(retrieve_docstring(&doc("two\nlines\n")), "two\nlines\n\n");
    assert_eq!(retrieve_docstring(&Attribute::NoMangle), "");
    assert_eq!(retrieve_docstring(&repr(&["C"])), "");
    assert_eq!(retrieve_docstring(&Attribute::Other), "");
}

#[test]
fn a_later_attribute_does_not_clear_the_flag() {
    let attrs = vec![Attribute::Other, repr(&["C"]), Attribute::Other, repr(&["u8"])];
    let (flag, text) = parse_attr(&attrs, check_repr_c, retrieve_docstring);
    assert!(flag);
    assert_eq!(text, "");
}

#[test]
fn the_flag_stays_false_without_a_match() {
    let attrs = vec![Attribute::Other, repr(&["u8"]), doc("x")];
    let (flag, text) = parse_attr(&attrs, check_repr_c, retrieve_docstring);
    assert!(!flag);
    assert_eq!(text, "x\n");
    let (flag, text) = parse_attr(&[], check_repr_c, retrieve_docstring);
    assert!(!flag);
    assert_eq!(text, "");
}

#[test]
fn texts_are_collected_in_order() {
    let attrs = vec![doc("/// one"), Attribute::NoMangle, doc("/// two"), repr(&["C"]), doc("/// three")];
    let (flag, text) = parse_attr(&attrs, check_no_mangle, retrieve_docstring);
    assert!(flag);
    assert_eq!(text, "/// one\n/// two\n/// three\n");
}

#[test]
fn the_check_is_not_asked_again_once_it_said_yes() {
    let asked = std::cell::Cell::new(0);
    let attrs = vec![Attribute::Other, Attribute::NoMangle, Attribute::Other, Attribute::NoMangle];
    let (flag, _) = parse_attr(
        &attrs,
        |a| {
            asked.set(asked.get() + 1);
            check_no_mangle(a)
        },
        retrieve_docstring,
    );
    assert!(flag);
    assert_eq!(asked.get(), 2);
}

#[test]
fn any_closures_will_do() {
    let attrs = vec![doc("a"), Attribute::Other, doc("b")];
    let (flag, text) = parse_attr(&attrs, |_| true, |a| match a {
        Attribute::Doc(t) => t.to_uppercase(),
        _ => String::from("-"),
    });
    assert!(flag);
    assert_eq!(text, "A-B");
    let (flag, text) = parse_attr(&attrs, |_| false, |_| String::new());
    assert!(!flag);
    assert_eq!(text, "");
}

#[test]
fn the_three_inspections() {
    let attrs = vec![doc("/// d"), repr(&["C"]), Attribute::NoMangle];
    assert_eq!(inspect_repr_c(&attrs), (true, String::from("/// d\n")));
    assert_eq!(inspect_no_mangle(&attrs), (true, String::from("/// d\n")));
    assert_eq!(inspect_docs(&attrs), "/// d\n");
    let attrs = vec![repr(&["packed"]), doc("x"), doc("y")];
    assert_eq!(inspect_repr_c(&attrs), (false, String::from("x\ny\n")));
    assert_eq!(inspect_no_mangle(&attrs), (false, String::from("x\ny\n")));
    assert_eq!(inspect_docs(&[]), "");
}
