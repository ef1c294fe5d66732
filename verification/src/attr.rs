//! The attribute inspector: one pass over an attribute list for a flag and a text.

use vstd::prelude::*;
use crate::ast::{attr_views, Attribute, AttributeView};
use crate::text::{concat, lemma_concat_add, lemma_concat_keeps_order, same_text};

verus! {

/// Whether `attr` is `#[repr(..)]` with `C` as the first word in its list.
pub open spec fn is_repr_c(attr: AttributeView) -> bool {
    attr matches AttributeView::Repr(words) && words.len() > 0 && words[0] == "C"@
}

/// Whether `attr` is `#[no_mangle]`.
pub open spec fn is_no_mangle(attr: AttributeView) -> bool {
    attr is NoMangle
}

/// The documentation that `attr` carries, closed by a newline; empty for any other
/// attribute.
pub open spec fn doc_text(attr: AttributeView) -> Seq<char> {
    match attr {
        AttributeView::Doc(text) => text + "\n"@,
        _ => Seq::empty(),
    }
}

/// Whether one of `attrs` is `#[repr(C)]`.
pub open spec fn has_repr_c(attrs: Seq<AttributeView>) -> bool {
    exists|i: int| 0 <= i < attrs.len() && is_repr_c(#[trigger] attrs[i])
}

/// Whether one of `attrs` is `#[no_mangle]`.
pub open spec fn has_no_mangle(attrs: Seq<AttributeView>) -> bool {
    exists|i: int| 0 <= i < attrs.len() && is_no_mangle(#[trigger] attrs[i])
}

/// The documentation that `attrs` carry, in their order.
pub open spec fn docs(attrs: Seq<AttributeView>) -> Seq<char> {
    concat(attrs.map_values(|a: AttributeView| doc_text(a)))
}

/// Only documentation counts for the documentation: without an attribute that is none,
/// `attrs` carry the same documentation.
pub proof fn lemma_docs_skip_other_attributes(attrs: Seq<AttributeView>, i: int)
    requires
        0 <= i < attrs.len(),
        !(attrs[i] is Doc),
    ensures
        docs(attrs.remove(i)) == docs(attrs),
{
    let text = |a: AttributeView| doc_text(a);
    let parts = attrs.map_values(text);
    lemma_concat_keeps_order(parts, i);
    lemma_concat_add(parts.take(i), parts.skip(i + 1));
    assert(attrs.remove(i).map_values(text) =~= parts.take(i) + parts.skip(i + 1));
    assert(docs(attrs) =~= concat(parts.take(i)) + concat(parts.skip(i + 1)));
}

/// Tells whether `attr` is `#[repr(C)]`.
pub fn check_repr_c(attr: &Attribute) -> (res: bool)
    ensures
        res == is_repr_c(attr@),
{
    match attr {
        Attribute::Repr(words) => {
            if words.len() > 0 {
                same_text(words[0].as_str(), "C")
            } else {
                false
            }
        },
        _ => false,
    }
}

/// Tells whether `attr` is `#[no_mangle]`.
pub fn check_no_mangle(attr: &Attribute) -> (res: bool)
    ensures
        res == is_no_mangle(attr@),
{
    match attr {
        Attribute::NoMangle => true,
        _ => false,
    }
}

/// Returns the documentation that `attr` carries, closed by a newline, or the empty
/// text where it carries none.
pub fn retrieve_docstring(attr: &Attribute) -> (res: String)
    ensures
        res@ == doc_text(attr@),
{
    match attr {
        Attribute::Doc(text) => {
            let mut res = text.clone();
            res.append("\n");
            res
        },
        _ => String::new(),
    }
}

/// Whether `check` accepts the attribute at `k` after it rejected all before it.
pub open spec fn accepted_first_at<C: Fn(&Attribute) -> bool>(
    check: C,
    attrs: Seq<Attribute>,
    k: int,
) -> bool {
    &&& 0 <= k < attrs.len()
    &&& call_ensures(check, (&attrs[k],), true)
    &&& forall|j: int| 0 <= j < k ==> #[trigger] call_ensures(check, (&attrs[j],), false)
}

/// Whether `flag` can come of asking `check` about `attrs` in order until it first
/// says yes: a yes needs an attribute that `check` accepts, all before it rejected;
/// a no needs every attribute rejected.
pub open spec fn flag_outcome<C: Fn(&Attribute) -> bool>(
    check: C,
    attrs: Seq<Attribute>,
    flag: bool,
) -> bool {
    if flag {
        exists|k: int| accepted_first_at(check, attrs, k)
    } else {
        forall|j: int| 0 <= j < attrs.len() ==> #[trigger] call_ensures(check, (&attrs[j],), false)
    }
}

/// Whether `texts` can come of calling `retrieve` on each of `attrs`.
pub open spec fn text_outcome<R: Fn(&Attribute) -> String>(
    retrieve: R,
    attrs: Seq<Attribute>,
    texts: Seq<String>,
) -> bool {
    &&& texts.len() == attrs.len()
    &&& forall|i: int|
        0 <= i < attrs.len() ==> #[trigger] call_ensures(retrieve, (&attrs[i],), texts[i])
}

/// The views of `texts`, in order.
pub open spec fn text_views(texts: Seq<String>) -> Seq<Seq<char>> {
    texts.map_values(|t: String| t@)
}

/// Walks `attrs` once, from first to last. The flag tells whether `check` accepted an
/// attribute; once it has, `check` is asked no more. The text is what `retrieve` gave
/// for each attribute, in their order.
pub fn parse_attr<C, R>(attrs: &[Attribute], check: C, retrieve: R) -> (res: (bool, String)) where
    C: Fn(&Attribute) -> bool,
    R: Fn(&Attribute) -> String,

    requires
        forall|i: int| 0 <= i < attrs@.len() ==> call_requires(check, (&#[trigger] attrs@[i],)),
        forall|i: int| 0 <= i < attrs@.len() ==> call_requires(retrieve, (&#[trigger] attrs@[i],)),
    ensures
        flag_outcome(check, attrs@, res.0),
        exists|texts: Seq<String>| #[trigger]
            text_outcome(retrieve, attrs@, texts) && res.1@ == concat(text_views(texts)),
{
    let mut check_passed = false;
    let mut retrieved_str = String::new();
    let ghost mut texts: Seq<String> = Seq::empty();
    let mut i: usize = 0;
    while i < attrs.len()
        invariant
            i <= attrs@.len(),
            forall|k: int| 0 <= k < attrs@.len() ==> call_requires(check, (&#[trigger] attrs@[k],)),
            forall|k: int|
                0 <= k < attrs@.len() ==> call_requires(retrieve, (&#[trigger] attrs@[k],)),
            flag_outcome(check, attrs@.take(i as int), check_passed),
            text_outcome(retrieve, attrs@.take(i as int), texts),
            retrieved_str@ == concat(text_views(texts)),
        decreases attrs@.len() - i,
    {
        let attr = &attrs[i];
        let ghost seen = attrs@.take(i as int);
        let ghost next = attrs@.take(i + 1);
        assert(seen =~= next.drop_last());
        assert(forall|k: int| 0 <= k < i ==> seen[k] == next[k]);
        if !check_passed {
            check_passed = check(attr);
            assert(call_ensures(check, (&next[i as int],), check_passed));
            assert(check_passed ==> accepted_first_at(check, next, i as int));
        } else {
            let ghost k = choose|k: int| accepted_first_at(check, seen, k);
            assert(accepted_first_at(check, next, k));
        }
        let text = retrieve(attr);
        retrieved_str.append(text.as_str());
        proof {
            let grown = texts.push(text);
            assert(text_views(grown).drop_last() =~= text_views(texts));
            assert(call_ensures(retrieve, (&next[i as int],), grown[i as int]));
            texts = grown;
        }
        i += 1;
    }
    assert(attrs@.take(i as int) =~= attrs@);
    (check_passed, retrieved_str)
}

/// What `retrieve_docstring` gives for each of `attrs` adds up to their documentation.
proof fn lemma_docs_retrieved(attrs: Seq<Attribute>, texts: Seq<String>)
    requires
        text_outcome(retrieve_docstring, attrs, texts),
    ensures
        concat(text_views(texts)) == docs(attr_views(attrs)),
{
    let wanted = attr_views(attrs).map_values(|a: AttributeView| doc_text(a));
    assert forall|i: int| 0 <= i < attrs.len() implies text_views(texts)[i] == wanted[i] by {
        assert(call_ensures(retrieve_docstring, (&attrs[i],), texts[i]));
    }
    assert(text_views(texts) =~= wanted);
}

/// Looks for `#[repr(C)]` among `attrs` and collects their documentation.
pub fn inspect_repr_c(attrs: &[Attribute]) -> (res: (bool, String))
    ensures
        res.0 == has_repr_c(attr_views(attrs@)),
        res.1@ == docs(attr_views(attrs@)),
{
    let res = parse_attr(attrs, check_repr_c, retrieve_docstring);
    proof {
        let texts = choose|texts: Seq<String>| #[trigger]
            text_outcome(retrieve_docstring, attrs@, texts) && res.1@ == concat(text_views(texts));
        lemma_docs_retrieved(attrs@, texts);
        if res.0 {
            let k = choose|k: int| accepted_first_at(check_repr_c, attrs@, k);
            assert(is_repr_c(attr_views(attrs@)[k]));
        } else {
            assert forall|i: int| 0 <= i < attrs@.len() implies !is_repr_c(
                #[trigger] attr_views(attrs@)[i],
            ) by {
                assert(call_ensures(check_repr_c, (&attrs@[i],), false));
            }
        }
    }
    res
}

/// Looks for `#[no_mangle]` among `attrs` and collects their documentation.
pub fn inspect_no_mangle(attrs: &[Attribute]) -> (res: (bool, String))
    ensures
        res.0 == has_no_mangle(attr_views(attrs@)),
        res.1@ == docs(attr_views(attrs@)),
{
    let res = parse_attr(attrs, check_no_mangle, retrieve_docstring);
    proof {
        let texts = choose|texts: Seq<String>| #[trigger]
            text_outcome(retrieve_docstring, attrs@, texts) && res.1@ == concat(text_views(texts));
        lemma_docs_retrieved(attrs@, texts);
        if res.0 {
            let k = choose|k: int| accepted_first_at(check_no_mangle, attrs@, k);
            assert(is_no_mangle(attr_views(attrs@)[k]));
        } else {
            assert forall|i: int| 0 <= i < attrs@.len() implies !is_no_mangle(
                #[trigger] attr_views(attrs@)[i],
            ) by {
                assert(call_ensures(check_no_mangle, (&attrs@[i],), false));
            }
        }
    }
    res
}

/// Collects the documentation of `attrs`.
pub fn inspect_docs(attrs: &[Attribute]) -> (res: String)
    ensures
        res@ == docs(attr_views(attrs@)),
{
    let any = |attr: &Attribute| -> (yes: bool)
        ensures
            yes,
        { true };
    let res = parse_attr(attrs, any, retrieve_docstring);
    proof {
        let texts = choose|texts: Seq<String>| #[trigger]
            text_outcome(retrieve_docstring, attrs@, texts) && res.1@ == concat(text_views(texts));
        lemma_docs_retrieved(attrs@, texts);
    }
    res.1
}

} // verus!
