//! Ordered sets of CSS class names, kept in a `yew::Classes`.
//!
//! A class list is modelled as the sequence of its names in insertion order.
//! Adding a name that the list already holds changes nothing; a new name goes
//! to the end.

use vstd::prelude::*;
use yew::Classes;

verus! {

/// `yew::Classes`, an insertion-ordered set of CSS class names.
#[verifier::external_type_specification]
#[verifier::external_body]
pub struct ExClasses(yew::Classes);

/// The class names held by a `Classes`, in insertion order.
pub uninterp spec fn class_names(classes: Classes) -> Seq<Seq<char>>;

/// A single class name: not empty, and made of visible ASCII characters only,
/// so that it holds no whitespace.
pub open spec fn is_class_name(name: Seq<char>) -> bool {
    &&& name.len() > 0
    &&& forall|i: int| 0 <= i < name.len() ==> '!' <= #[trigger] name[i] <= '~'
}

/// The list `names` after `name` was added to it.
pub open spec fn with_class(names: Seq<Seq<char>>, name: Seq<char>) -> Seq<Seq<char>> {
    if names.contains(name) {
        names
    } else {
        names.push(name)
    }
}

/// The list `names` after each name of `more` was added to it, first to last.
pub open spec fn with_classes(names: Seq<Seq<char>>, more: Seq<Seq<char>>) -> Seq<Seq<char>>
    decreases more.len(),
{
    if more.len() == 0 {
        names
    } else {
        with_classes(with_class(names, more[0]), more.drop_first())
    }
}

/// The list `names` after `name` was added to it if `on` holds.
pub open spec fn with_flag(names: Seq<Seq<char>>, on: bool, name: Seq<char>) -> Seq<Seq<char>> {
    if on {
        with_class(names, name)
    } else {
        names
    }
}

/// The list `names` after the classes of `extra`, if there are any, were added to it.
pub open spec fn with_extra(names: Seq<Seq<char>>, extra: Option<Classes>) -> Seq<Seq<char>> {
    match extra {
        Some(more) => with_classes(names, class_names(more)),
        None => names,
    }
}

/// Adding a list of one name is adding that name.
pub proof fn lemma_with_classes_one(names: Seq<Seq<char>>, name: Seq<char>)
    ensures
        with_classes(names, seq![name]) == with_class(names, name),
{
    reveal_with_fuel(with_classes, 2);
    assert(seq![name].drop_first().len() == 0);
}

/// Adding a name keeps every name that was there in its place, and the list
/// holds the added name afterwards. A list without repeats stays without
/// repeats, and adding the same name again changes nothing.
pub proof fn adding_a_class_keeps_order(names: Seq<Seq<char>>, name: Seq<char>)
    ensures
        names.is_prefix_of(with_class(names, name)),
        with_class(names, name).contains(name),
        forall|other: Seq<char>|
            #[trigger] with_class(names, name).contains(other) <==> names.contains(other) || other
                == name,
        names.no_duplicates() ==> with_class(names, name).no_duplicates(),
        with_class(with_class(names, name), name) == with_class(names, name),
{
    let added = with_class(names, name);
    if !names.contains(name) {
        assert(added[names.len() as int] == name);
        assert forall|other: Seq<char>| #[trigger]
            added.contains(other) <==> names.contains(other) || other == name by {
            if names.contains(other) {
                let at = choose|at: int| 0 <= at < names.len() && names[at] == other;
                assert(added[at] == other);
            }
        }
    }
}

/// Adding a list of names keeps every name that was there in its place; the
/// list then holds the names that were there and the added ones, and no
/// others. A list without repeats stays without repeats, whatever is added.
pub proof fn adding_classes_keeps_order(names: Seq<Seq<char>>, more: Seq<Seq<char>>)
    ensures
        names.is_prefix_of(with_classes(names, more)),
        forall|other: Seq<char>|
            #[trigger] with_classes(names, more).contains(other) <==> names.contains(other)
                || more.contains(other),
        names.no_duplicates() ==> with_classes(names, more).no_duplicates(),
    decreases more.len(),
{
    if more.len() > 0 {
        let first = with_class(names, more[0]);
        let rest = more.drop_first();
        adding_a_class_keeps_order(names, more[0]);
        adding_classes_keeps_order(first, rest);
        assert forall|other: Seq<char>| #[trigger]
            with_classes(names, more).contains(other) <==> names.contains(other) || more.contains(
                other,
            ) by {
            if more.contains(other) {
                let at = choose|at: int| 0 <= at < more.len() && more[at] == other;
                if at > 0 {
                    assert(rest[at - 1] == other);
                }
            }
            if rest.contains(other) {
                let at = choose|at: int| 0 <= at < rest.len() && rest[at] == other;
                assert(more[at + 1] == other);
            }
        }
    }
}

/// `Classes::new`: the new list holds no class.
#[verifier::external_body]
pub(crate) fn new_classes() -> (classes: Classes)
    ensures
        class_names(classes) == Seq::<Seq<char>>::empty(),
{
    Classes::new()
}

/// `Classes::from` on a `String`: a text without whitespace that is not empty
/// becomes a list of that one class.
#[verifier::external_body]
pub(crate) fn class_from(name: &str) -> (classes: Classes)
    requires
        is_class_name(name@),
    ensures
        class_names(classes) == seq![name@],
{
    Classes::from(name.to_owned())
}

/// `Classes::push` with another `Classes`: each class of `more` that the list
/// lacks goes to its end, in the order of `more`; the others are ignored.
#[verifier::external_body]
pub(crate) fn push_all(classes: &mut Classes, more: Classes)
    ensures
        class_names(*final(classes)) == with_classes(class_names(*old(classes)), class_names(more)),
{
    classes.push(more)
}

/// `Clone::clone` of `Classes`: the copy holds the same classes in the same order.
pub assume_specification[ <yew::Classes as Clone>::clone ](classes: &yew::Classes) -> (copy:
    yew::Classes)
    ensures
        class_names(copy) == class_names(*classes),
;

/// `Classes::contains`: whether the list holds the class `name`.
#[verifier::external_body]
pub(crate) fn has_class(classes: &Classes, name: &str) -> (found: bool)
    ensures
        found == class_names(*classes).contains(name@),
{
    classes.contains(name)
}

/// Adds the class `name` to the list.
pub fn push_class(classes: &mut Classes, name: &str)
    requires
        is_class_name(name@),
    ensures
        class_names(*final(classes)) == with_class(class_names(*old(classes)), name@),
{
    let one = class_from(name);
    proof {
        lemma_with_classes_one(class_names(*classes), name@);
    }
    push_all(classes, one);
}

/// Adds the class `name` to the list if `on` holds.
pub fn push_flag(classes: &mut Classes, on: bool, name: &str)
    requires
        is_class_name(name@),
    ensures
        class_names(*final(classes)) == with_flag(class_names(*old(classes)), on, name@),
{
    if on {
        push_class(classes, name);
    }
}

/// Adds the classes of `extra`, if there are any, to the list.
pub fn push_extra(classes: &mut Classes, extra: &Option<Classes>)
    ensures
        class_names(*final(classes)) == with_extra(class_names(*old(classes)), *extra),
{
    match extra {
        Some(more) => {
            push_all(classes, more.clone());
        },
        None => {},
    }
}

/// A modifier that stands for one class, such as a size or an alignment.
pub trait Modifier {
    /// The class of this modifier.
    spec fn class_name(&self) -> Seq<char>;

    /// The class of this modifier, as text.
    fn to_string(&self) -> (text: String)
        ensures
            text@ == self.class_name(),
            is_class_name(text@),
    ;
}

/// The list `names` after the class of `modifier`, if there is one, was added to it.
pub open spec fn with_modifier<M: Modifier>(names: Seq<Seq<char>>, modifier: Option<M>) -> Seq<
    Seq<char>,
> {
    match modifier {
        Some(modifier) => with_class(names, modifier.class_name()),
        None => names,
    }
}

/// Adds the class of `modifier`, if there is one, to the list.
pub fn push_modifier<M: Modifier>(classes: &mut Classes, modifier: &Option<M>)
    ensures
        class_names(*final(classes)) == with_modifier(class_names(*old(classes)), *modifier),
{
    match modifier {
        Some(modifier) => {
            let name = modifier.to_string();
            push_class(classes, name.as_str());
        },
        None => {},
    }
}

} // verus!
