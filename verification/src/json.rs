//! JSON values: the shape every response, frame and stored preference is built from.
//!
//! [`Json`] is the library's own value and [`Tree`] its mathematical model. Reading and writing
//! JSON text is the work of `serde_json`; the conversion between its values and [`Json`] walks
//! both trees and is verified.

use vstd::prelude::*;
use vstd::utf8::valid_utf8;

use crate::text::opt_view;

verus! {

/// A JSON value.
#[derive(Debug, PartialEq, Eq)]
pub enum Json {
    /// `null`.
    Null,
    /// `true` or `false`.
    Bool(bool),
    /// A whole number that is not negative.
    UInt(u64),
    /// A whole number, negative as a rule.
    Int(i64),
    /// A number, fractional as a rule, carried through unchanged.
    Float(serde_json::Number),
    /// A string.
    Str(String),
    /// An array.
    Array(Vec<Json>),
    /// An object, as its members in order.
    Object(Vec<(String, Json)>),
}

/// What a JSON value is, as mathematics.
pub ghost enum Tree {
    /// `null`.
    Null,
    /// `true` or `false`.
    Bool(bool),
    /// A whole number that is not negative.
    UInt(u64),
    /// A negative whole number.
    Int(i64),
    /// Any other number.
    Float(serde_json::Number),
    /// A string.
    Str(Seq<char>),
    /// An array.
    Array(Seq<Tree>),
    /// An object, as its members in order.
    Object(Seq<(Seq<char>, Tree)>),
}

/// The model of a value.
pub open spec fn tree_of(value: Json) -> Tree
    decreases value,
{
    match value {
        Json::Null => Tree::Null,
        Json::Bool(b) => Tree::Bool(b),
        Json::UInt(n) => Tree::UInt(n),
        Json::Int(n) => if n < 0 { Tree::Int(n) } else { Tree::UInt(n as u64) },
        Json::Float(n) => number_tree(n),
        Json::Str(s) => Tree::Str(s@),
        Json::Array(items) => Tree::Array(
            Seq::new(
                items@.len(),
                |i: int| if 0 <= i < items@.len() { tree_of(items@[i]) } else { Tree::Null },
            ),
        ),
        Json::Object(fields) => Tree::Object(
            Seq::new(
                fields@.len(),
                |i: int|
                    if 0 <= i < fields@.len() {
                        (fields@[i].0@, tree_of(fields@[i].1))
                    } else {
                        (Seq::<char>::empty(), Tree::Null)
                    },
            ),
        ),
    }
}

impl View for Json {
    type V = Tree;

    open spec fn view(&self) -> Tree {
        tree_of(*self)
    }
}

/// An object without members.
pub open spec fn object() -> Tree {
    Tree::Object(Seq::empty())
}

impl Tree {
    /// The object with one member more.
    pub open spec fn field(self, key: Seq<char>, value: Tree) -> Tree {
        match self {
            Tree::Object(fields) => Tree::Object(fields.push((key, value))),
            _ => self,
        }
    }

    /// The object with one member more, where there is a value for it.
    pub open spec fn field_if(self, key: Seq<char>, value: Option<Tree>) -> Tree {
        match value {
            Some(value) => self.field(key, value),
            None => self,
        }
    }
}

/// The trees of a list of values.
pub open spec fn trees(items: Seq<Json>) -> Seq<Tree> {
    Seq::new(items.len(), |i: int| items[i]@)
}

/// The members that a list of key and value pairs stands for.
pub open spec fn members(fields: Seq<(String, Json)>) -> Seq<(Seq<char>, Tree)> {
    Seq::new(fields.len(), |i: int| (fields[i].0@, fields[i].1@))
}

/// The view of an array and of an object, by its parts.
pub broadcast proof fn view_of_parts(value: Json)
    ensures
        #![trigger value@]
        value is Array ==> value@ == Tree::Array(trees(value->Array_0@)),
        value is Object ==> value@ == Tree::Object(members(value->Object_0@)),
{
    reveal_with_fuel(tree_of, 2);
    match value {
        Json::Array(items) => {
            assert(value@->Array_0 =~= trees(items@));
        },
        Json::Object(fields) => {
            assert(value@->Object_0 =~= members(fields@));
        },
        _ => {},
    }
}

/// The string, or `null` where there is none.
pub open spec fn opt_tree(value: Option<Seq<char>>) -> Tree {
    match value {
        Some(text) => Tree::Str(text),
        None => Tree::Null,
    }
}

/// The number, or `null` where there is none.
pub open spec fn opt_uint_tree(value: Option<u64>) -> Tree {
    match value {
        Some(n) => Tree::UInt(n),
        None => Tree::Null,
    }
}

/// The array of strings.
pub open spec fn text_array(items: Seq<Seq<char>>) -> Tree {
    Tree::Array(Seq::new(items.len(), |i: int| Tree::Str(items[i])))
}

/// The last member of that name, or none.
pub open spec fn lookup(fields: Seq<(Seq<char>, Tree)>, key: Seq<char>) -> Option<Tree>
    decreases fields.len(),
{
    if fields.len() == 0 {
        None
    } else if fields.last().0 == key {
        Some(fields.last().1)
    } else {
        lookup(fields.drop_last(), key)
    }
}

/// The member of that name, where the value is an object that has one.
pub open spec fn member(value: Tree, key: Seq<char>) -> Option<Tree> {
    match value {
        Tree::Object(fields) => lookup(fields, key),
        _ => None,
    }
}

/// What is found in an object with one member more: the new member under its name, and under every
/// other name what was found before.
pub broadcast proof fn member_of_field(value: Tree, name: Seq<char>, part: Tree, key: Seq<char>)
    requires
        value is Object,
    ensures
        #[trigger] member(value.field(name, part), key) == (if name == key {
            Some(part)
        } else {
            member(value, key)
        }),
{
    let fields = value->Object_0;
    assert(fields.push((name, part)).drop_last() =~= fields);
}

/// What is found among members of which one was set: the new value under its name, and under every
/// other name what was found before.
pub proof fn member_of_replaced(
    fields: Seq<(Seq<char>, Tree)>,
    name: Seq<char>,
    part: Tree,
    key: Seq<char>,
)
    ensures
        lookup(with_member(fields, name, part), key) == (if name == key {
            Some(part)
        } else {
            lookup(fields, key)
        }),
{
    let rest = without(fields, name);
    assert(rest.push((name, part)).drop_last() =~= rest);
    if name != key {
        lookup_without(fields, name, key);
    }
}

/// The members without those of that name.
pub open spec fn without(fields: Seq<(Seq<char>, Tree)>, key: Seq<char>) -> Seq<
    (Seq<char>, Tree),
>
    decreases fields.len(),
{
    if fields.len() == 0 {
        fields
    } else if fields.last().0 == key {
        without(fields.drop_last(), key)
    } else {
        without(fields.drop_last(), key).push(fields.last())
    }
}

/// The members with the one of that name set to the value, as the last of them.
pub open spec fn with_member(
    fields: Seq<(Seq<char>, Tree)>,
    key: Seq<char>,
    value: Tree,
) -> Seq<(Seq<char>, Tree)> {
    without(fields, key).push((key, value))
}

/// The tree of an optional value.
pub open spec fn opt_value(value: Option<Json>) -> Option<Tree> {
    match value {
        Some(value) => Some(value@),
        None => None,
    }
}

/// The members stand in the strict order of their names.
pub open spec fn sorted_names(fields: Seq<(Seq<char>, Tree)>) -> bool {
    forall|i: int, j: int|
        0 <= i < j < fields.len() ==> crate::text::precedes(
            (#[trigger] fields[i]).0,
            (#[trigger] fields[j]).0,
        )
}

/// Whether `b` is `a` with the members of every object in the order of their names, the last
/// member of a name being the one that counts.
pub open spec fn canonical_form(a: Tree, b: Tree) -> bool
    decreases a,
{
    match (a, b) {
        (Tree::Array(x), Tree::Array(y)) => {
            x.len() == y.len() && forall|i: int|
                0 <= i < x.len() ==> canonical_form(#[trigger] x[i], y[i])
        },
        (Tree::Object(x), Tree::Object(y)) => {
            &&& sorted_names(y)
            &&& forall|i: int|
                0 <= i < x.len() ==> ({
                    let name = (#[trigger] x[i]).0;
                    lookup(y, name) matches Some(other) && (lookup(x, name) == Some(x[i].1)
                        ==> canonical_form(x[i].1, other))
                })
            &&& forall|name: Seq<char>| (#[trigger] lookup(y, name)) is Some ==> lookup(x, name) is Some
        },
        _ => a == b,
    }
}

/// The place of the last member of a name.
pub proof fn lookup_found(fields: Seq<(Seq<char>, Tree)>, key: Seq<char>) -> (i: int)
    requires
        lookup(fields, key) is Some,
    ensures
        0 <= i < fields.len(),
        fields[i] == (key, lookup(fields, key)->0),
        forall|j: int| i < j < fields.len() ==> (#[trigger] fields[j]).0 != key,
    decreases fields.len(),
{
    if fields.last().0 == key {
        fields.len() - 1
    } else {
        let i = lookup_found(fields.drop_last(), key);
        assert forall|j: int| i < j < fields.len() implies (#[trigger] fields[j]).0 != key by {
            if j < fields.len() - 1 {
                assert(fields.drop_last()[j] == fields[j]);
            }
        }
        i
    }
}

/// The last member of its name is the one that is found.
pub proof fn lookup_last(fields: Seq<(Seq<char>, Tree)>, i: int)
    requires
        0 <= i < fields.len(),
        forall|j: int| i < j < fields.len() ==> (#[trigger] fields[j]).0 != fields[i].0,
    ensures
        lookup(fields, fields[i].0) == Some(fields[i].1),
    decreases fields.len(),
{
    if i < fields.len() - 1 {
        let rest = fields.drop_last();
        assert(fields[fields.len() - 1].0 != fields[i].0);
        assert forall|j: int| i < j < rest.len() implies (#[trigger] rest[j]).0 != rest[i].0 by {
            assert(rest[j] == fields[j]);
        }
        lookup_last(rest, i);
    }
}

/// Every name among the members is found.
pub proof fn lookup_present(fields: Seq<(Seq<char>, Tree)>, i: int)
    requires
        0 <= i < fields.len(),
    ensures
        lookup(fields, fields[i].0) is Some,
    decreases fields.len(),
{
    if i < fields.len() - 1 {
        lookup_present(fields.drop_last(), i);
    }
}

/// The members of a plain object are plain, one level less deep.
pub proof fn plain_member(fields: Seq<(Seq<char>, Tree)>, depth: nat, k: int)
    requires
        plain(Tree::Object(fields), depth),
        0 <= k < fields.len(),
    ensures
        depth > 0,
        plain(fields[k].1, (depth - 1) as nat),
{
    let object = Tree::Object(fields);
    assert(depth > 0);
    assert(object->Object_0 == fields);
    let entry = fields[k];
    assert(plain(entry.1, (depth - 1) as nat));
}

/// The items of a plain array are plain, one level less deep.
pub proof fn plain_item(items: Seq<Tree>, depth: nat, k: int)
    requires
        plain(Tree::Array(items), depth),
        0 <= k < items.len(),
    ensures
        depth > 0,
        plain(items[k], (depth - 1) as nat),
{
    let array = Tree::Array(items);
    assert(depth > 0);
    assert(array->Array_0 == items);
    assert(plain(items[k], (depth - 1) as nat));
}

/// An object whose members were each brought into canonical form and then ordered by name is in
/// canonical form, and as plain as it was.
proof fn ordered_object_is_canonical(
    x: Seq<(Seq<char>, Tree)>,
    y: Seq<(Seq<char>, Tree)>,
    z: Seq<(Seq<char>, Tree)>,
)
    requires
        x.len() == y.len(),
        forall|i: int|
            0 <= i < x.len() ==> (#[trigger] x[i]).0 == y[i].0 && canonical_form(x[i].1, y[i].1),
        forall|i: int, d: nat|
            0 <= i < x.len() && plain(x[i].1, d) ==> #[trigger] plain(y[i].1, d),
        sorted_names(z),
        forall|key: Seq<char>| #[trigger] lookup(z, key) == lookup(y, key),
    ensures
        canonical_form(Tree::Object(x), Tree::Object(z)),
        forall|d: nat| plain(Tree::Object(x), d) ==> plain(Tree::Object(z), d),
{
    assert forall|i: int| 0 <= i < x.len() implies ({
        let name = (#[trigger] x[i]).0;
        lookup(z, name) matches Some(other) && (lookup(x, name) == Some(x[i].1)
            ==> canonical_form(x[i].1, other))
    }) by {
        let name = x[i].0;
        lookup_present(x, i);
        lookup_present(y, i);
        let k = lookup_found(x, name);
        assert forall|j: int| k < j < y.len() implies (#[trigger] y[j]).0 != y[k].0 by {
            assert(x[j].0 == y[j].0);
        }
        assert(y[k].0 == x[k].0);
        lookup_last(y, k);
    }
    assert forall|name: Seq<char>| (#[trigger] lookup(z, name)) is Some implies lookup(x, name) is Some by {
        let k = lookup_found(y, name);
        assert(x[k].0 == y[k].0);
        lookup_present(x, k);
    }
    assert forall|d: nat| plain(Tree::Object(x), d) implies plain(Tree::Object(z), d) by {
        assert forall|i: int| 0 <= i < z.len() implies plain((#[trigger] z[i]).1, (d - 1) as nat) by {
            assert forall|j: int| i < j < z.len() implies (#[trigger] z[j]).0 != z[i].0 by {
                crate::text::precedes_irreflexive(z[i].0);
            }
            lookup_last(z, i);
            let k = lookup_found(y, z[i].0);
            plain_member(x, d, k);
            assert(plain(y[k].1, (d - 1) as nat));
        }
        if begins_reserved(z) {
            let k = lookup_found(y, reserved_name());
            assert(x[k].0 == y[k].0);
            lookup_present(x, k);
            assert forall|i: int| 0 <= i < x.len() implies (#[trigger] x[i]).0 == reserved_name()
                || crate::text::precedes(reserved_name(), x[i].0) by {
                assert(x[i].0 == y[i].0);
                lookup_present(y, i);
                let j = lookup_found(z, x[i].0);
                assert(z[j].0 == x[i].0);
            }
            assert(begins_reserved(x));
        }
    }
}

/// The name that `serde_json` keeps for itself: it reads an object that begins with a member of
/// this name as the value that the member's text spells.
pub open spec fn reserved_name() -> Seq<char> {
    "$serde_json::private::RawValue"@
}

/// Whether the reserved name is the first of some names, in their order.
pub open spec fn begins_reserved(fields: Seq<(Seq<char>, Tree)>) -> bool {
    lookup(fields, reserved_name()) is Some && forall|i: int|
        0 <= i < fields.len() ==> (#[trigger] fields[i]).0 == reserved_name()
            || crate::text::precedes(reserved_name(), fields[i].0)
}

/// Members of other names do not begin with the reserved one.
pub proof fn begins_otherwise(fields: Seq<(Seq<char>, Tree)>)
    requires
        forall|i: int| 0 <= i < fields.len() ==> (#[trigger] fields[i]).0 != reserved_name(),
    ensures
        !begins_reserved(fields),
{
    if lookup(fields, reserved_name()) is Some {
        let k = lookup_found(fields, reserved_name());
        assert(fields[k].0 == reserved_name());
    }
}

/// A value whose JSON text the parser reads: nested at most `depth` levels deep, and without an
/// object that begins with the reserved name.
pub open spec fn plain(value: Tree, depth: nat) -> bool
    decreases value,
{
    match value {
        Tree::Array(items) => depth > 0 && forall|i: int|
            0 <= i < items.len() ==> plain(#[trigger] items[i], (depth - 1) as nat),
        Tree::Object(fields) => depth > 0 && !begins_reserved(fields) && forall|i: int|
            0 <= i < fields.len() ==> plain((#[trigger] fields[i]).1, (depth - 1) as nat),
        _ => true,
    }
}

/// Whether two values are the same but for their fractional numbers, of which each stands where
/// the other has one.
pub open spec fn alike(a: Tree, b: Tree) -> bool
    decreases a,
{
    match (a, b) {
        (Tree::Float(_), Tree::Float(_)) => true,
        (Tree::Array(x), Tree::Array(y)) => {
            x.len() == y.len() && forall|i: int| 0 <= i < x.len() ==> alike(#[trigger] x[i], y[i])
        },
        (Tree::Object(x), Tree::Object(y)) => {
            x.len() == y.len() && forall|i: int|
                0 <= i < x.len() ==> (#[trigger] x[i]).0 == y[i].0 && alike(x[i].1, y[i].1)
        },
        _ => a == b,
    }
}

/// Whether two values, or that there is none, are the same but for their fractional numbers.
pub open spec fn alike_if_any(a: Option<Tree>, b: Option<Tree>) -> bool {
    match (a, b) {
        (Some(a), Some(b)) => alike(a, b),
        (None, None) => true,
        _ => false,
    }
}

/// Whether `b` is a value that the JSON text of `a` is read back as: `a` in canonical form, but for
/// its fractional numbers, of which each is read as one.
pub open spec fn reading_of(a: Tree, b: Tree) -> bool
    decreases a,
{
    match (a, b) {
        (Tree::Float(_), Tree::Float(_)) => true,
        (Tree::Array(x), Tree::Array(y)) => {
            x.len() == y.len() && forall|i: int|
                0 <= i < x.len() ==> reading_of(#[trigger] x[i], y[i])
        },
        (Tree::Object(x), Tree::Object(y)) => {
            &&& sorted_names(y)
            &&& forall|i: int|
                0 <= i < x.len() ==> ({
                    let name = (#[trigger] x[i]).0;
                    lookup(y, name) matches Some(other) && (lookup(x, name) == Some(x[i].1)
                        ==> reading_of(x[i].1, other))
                })
            &&& forall|name: Seq<char>| (#[trigger] lookup(y, name)) is Some ==> lookup(x, name) is Some
        },
        _ => a == b,
    }
}

/// Whether a value has no fractional number in it.
pub open spec fn whole(value: Tree) -> bool
    decreases value,
{
    match value {
        Tree::Float(_) => false,
        Tree::Array(items) => forall|i: int| 0 <= i < items.len() ==> whole(#[trigger] items[i]),
        Tree::Object(fields) => forall|i: int|
            0 <= i < fields.len() ==> whole((#[trigger] fields[i]).1),
        _ => true,
    }
}

/// Members that are alike are found alike.
proof fn lookups_are_alike(x: Seq<(Seq<char>, Tree)>, y: Seq<(Seq<char>, Tree)>, key: Seq<char>)
    requires
        x.len() == y.len(),
        forall|i: int| 0 <= i < x.len() ==> (#[trigger] x[i]).0 == y[i].0 && alike(x[i].1, y[i].1),
    ensures
        alike_if_any(lookup(x, key), lookup(y, key)),
    decreases x.len(),
{
    if x.len() > 0 {
        assert(x[x.len() - 1].0 == y[x.len() - 1].0);
        assert forall|i: int| 0 <= i < x.drop_last().len() implies (#[trigger] x.drop_last()[i]).0
            == y.drop_last()[i].0 && alike(x.drop_last()[i].1, y.drop_last()[i].1) by {
            assert(x[i].0 == y[i].0);
        }
        lookups_are_alike(x.drop_last(), y.drop_last(), key);
    }
}

/// What is like a canonical form is a reading.
pub proof fn readings_are_alike(a: Tree, t: Tree, b: Tree)
    requires
        canonical_form(a, t),
        alike(t, b),
    ensures
        reading_of(a, b),
    decreases a,
{
    match (a, t) {
        (Tree::Array(x), Tree::Array(y)) => {
            let z = b->Array_0;
            assert forall|i: int| 0 <= i < x.len() implies reading_of(#[trigger] x[i], z[i]) by {
                assert(alike(y[i], z[i]));
                readings_are_alike(x[i], y[i], z[i]);
            }
        },
        (Tree::Object(x), Tree::Object(y)) => {
            let z = b->Object_0;
            assert forall|i: int, j: int| 0 <= i < j < z.len() implies crate::text::precedes(
                (#[trigger] z[i]).0,
                (#[trigger] z[j]).0,
            ) by {
                assert(y[i].0 == z[i].0 && y[j].0 == z[j].0);
            }
            objects_are_read(x, y, z);
        },
        _ => {},
    }
}

/// An object that is like the canonical form of another is a reading of it.
proof fn objects_are_read(
    x: Seq<(Seq<char>, Tree)>,
    y: Seq<(Seq<char>, Tree)>,
    z: Seq<(Seq<char>, Tree)>,
)
    requires
        canonical_form(Tree::Object(x), Tree::Object(y)),
        sorted_names(z),
        y.len() == z.len(),
        forall|i: int| 0 <= i < y.len() ==> (#[trigger] y[i]).0 == z[i].0 && alike(y[i].1, z[i].1),
    ensures
        reading_of(Tree::Object(x), Tree::Object(z)),
    decreases x,
{
    assert forall|i: int| 0 <= i < x.len() implies ({
        let name = (#[trigger] x[i]).0;
        lookup(z, name) matches Some(other) && (lookup(x, name) == Some(x[i].1) ==> reading_of(
            x[i].1,
            other,
        ))
    }) by {
        let name = x[i].0;
        lookups_are_alike(y, z, name);
        if lookup(x, name) == Some(x[i].1) {
            readings_are_alike(x[i].1, lookup(y, name)->0, lookup(z, name)->0);
        }
    }
    assert forall|name: Seq<char>| (#[trigger] lookup(z, name)) is Some implies lookup(x, name) is Some by {
        lookups_are_alike(y, z, name);
    }
}

/// A value is like itself.
proof fn alike_itself(a: Tree)
    ensures
        alike(a, a),
    decreases a,
{
    match a {
        Tree::Array(x) => {
            assert forall|i: int| 0 <= i < x.len() implies alike(#[trigger] x[i], x[i]) by {
                alike_itself(x[i]);
            }
        },
        Tree::Object(x) => {
            assert forall|i: int| 0 <= i < x.len() implies (#[trigger] x[i]).0 == x[i].0 && alike(
                x[i].1,
                x[i].1,
            ) by {
                alike_itself(x[i].1);
            }
        },
        _ => {},
    }
}

/// A canonical form is a reading.
pub proof fn canonical_forms_are_readings(a: Tree, b: Tree)
    requires
        canonical_form(a, b),
    ensures
        reading_of(a, b),
{
    alike_itself(b);
    readings_are_alike(a, b, b);
}

/// A member of another name is found as before where one name was taken out.
pub proof fn lookup_without(fields: Seq<(Seq<char>, Tree)>, key: Seq<char>, other: Seq<char>)
    requires
        key != other,
    ensures
        lookup(without(fields, key), other) == lookup(fields, other),
    decreases fields.len(),
{
    if fields.len() > 0 {
        lookup_without(fields.drop_last(), key, other);
        if fields.last().0 != key {
            let kept = without(fields.drop_last(), key);
            assert(kept.push(fields.last()).drop_last() =~= kept);
        }
    }
}

/// A reading of a value without fractional numbers is its canonical form.
pub proof fn whole_readings_are_exact(a: Tree, b: Tree)
    requires
        whole(a),
        reading_of(a, b),
    ensures
        canonical_form(a, b),
    decreases a,
{
    match (a, b) {
        (Tree::Array(x), Tree::Array(y)) => {
            assert forall|i: int| 0 <= i < x.len() implies canonical_form(#[trigger] x[i], y[i]) by {
                whole_readings_are_exact(x[i], y[i]);
            }
        },
        (Tree::Object(x), Tree::Object(y)) => {
            assert forall|i: int| 0 <= i < x.len() implies ({
                let name = (#[trigger] x[i]).0;
                lookup(y, name) matches Some(other) && (lookup(x, name) == Some(x[i].1)
                    ==> canonical_form(x[i].1, other))
            }) by {
                let name = x[i].0;
                if lookup(x, name) == Some(x[i].1) {
                    assert(whole(x[i].1));
                    whole_readings_are_exact(x[i].1, lookup(y, name)->0);
                }
            }
        },
        _ => {},
    }
}

/// Members of an object being put together.
pub struct Fields {
    items: Vec<(String, Json)>,
}

impl View for Fields {
    type V = Seq<(Seq<char>, Tree)>;

    closed spec fn view(&self) -> Seq<(Seq<char>, Tree)> {
        members(self.items@)
    }
}

impl Fields {
    /// No members yet.
    pub fn new() -> (result: Fields)
        ensures
            result@ == Seq::<(Seq<char>, Tree)>::empty(),
    {
        let result = Fields { items: Vec::new() };
        assert(result@ =~= Seq::<(Seq<char>, Tree)>::empty());
        result
    }

    /// One member more.
    pub fn with(self, key: &str, value: Json) -> (result: Fields)
        ensures
            result@ == self@.push((key@, value@)),
    {
        let ghost before = self.items@;
        let mut items: Vec<(String, Json)> = self.items;
        items.push((key.to_owned(), value));
        assert(members(items@) =~= members(before).push((key@, value@)));
        Fields { items }
    }

    /// One member more, where there is a value for it.
    pub fn maybe(self, key: &str, value: Option<Json>) -> (result: Fields)
        ensures
            Tree::Object(result@) == Tree::Object(self@).field_if(key@, opt_value(value)),
    {
        match value {
            Some(value) => self.with(key, value),
            None => self,
        }
    }

    /// The member set, in place of any of that name.
    pub fn set(self, key: &str, value: Json) -> (result: Fields)
        ensures
            result@ == with_member(self@, key@, value@),
    {
        self.without(key).with(key, value)
    }

    /// The members but those of that name.
    pub fn without(self, key: &str) -> (result: Fields)
        ensures
            result@ == without(self@, key@),
    {
        let ghost before = self.items@;
        let mut rest: Vec<(String, Json)> = self.items;
        let mut kept: Vec<(String, Json)> = Vec::new();
        let mut tail: Vec<(String, Json)> = Vec::new();
        while rest.len() > 0
            invariant
                rest@ =~= before.take(rest@.len() as int),
                tail@.len() == before.len() - rest@.len(),
                forall|j: int|
                    0 <= j < tail@.len() ==> #[trigger] tail@[j] == before[before.len() - 1 - j],
            decreases rest.len(),
        {
            let last = rest.pop();
            if let Some(pair) = last {
                tail.push(pair);
            }
        }
        while tail.len() > 0
            invariant
                tail@.len() <= before.len(),
                forall|j: int|
                    0 <= j < tail@.len() ==> #[trigger] tail@[j] == before[before.len() - 1 - j],
                members(kept@) == without(members(before.take(before.len() - tail@.len())), key@),
            decreases tail.len(),
        {
            let ghost done = before.len() - tail@.len();
            let last = tail.pop();
            if let Some(pair) = last {
                assert(pair == before[done]);
                let ghost part = members(before.take(done + 1));
                assert(part.drop_last() =~= members(before.take(done)));
                assert(part.last() == (pair.0@, pair.1@));
                if !crate::text::same_text(pair.0.as_str(), key) {
                    let ghost old_kept = members(kept@);
                    kept.push(pair);
                    assert(members(kept@) =~= old_kept.push((pair.0@, pair.1@)));
                }
            }
        }
        assert(before.take(before.len() as int) =~= before);
        Fields { items: kept }
    }

    /// The object of these members.
    pub fn object(self) -> (result: Json)
        ensures
            result@ == Tree::Object(self@),
    {
        broadcast use view_of_parts;

        Json::Object(self.items)
    }
}

impl Json {
    /// A string value.
    pub fn text(s: &str) -> (result: Json)
        ensures
            result@ == Tree::Str(s@),
    {
        Json::Str(s.to_owned())
    }

    /// A string value, or `null` where there is none.
    pub fn opt_text(s: &Option<String>) -> (result: Json)
        ensures
            result@ == opt_tree(opt_view(*s)),
    {
        match s {
            Some(text) => Json::Str(text.clone()),
            None => Json::Null,
        }
    }

    /// A number, or `null` where there is none.
    pub fn opt_uint(n: Option<u64>) -> (result: Json)
        ensures
            result@ == opt_uint_tree(n),
    {
        match n {
            Some(value) => Json::UInt(value),
            None => Json::Null,
        }
    }

    /// An array of values.
    pub fn array(items: Vec<Json>) -> (result: Json)
        ensures
            result@ == Tree::Array(trees(items@)),
    {
        broadcast use view_of_parts;

        Json::Array(items)
    }

    /// An array of strings.
    pub fn texts(items: &Vec<String>) -> (result: Json)
        ensures
            result@ == text_array(crate::text::texts(items@)),
    {
        broadcast use view_of_parts;

        let mut out: Vec<Json> = Vec::new();
        for i in 0..items.len()
            invariant
                out@.len() == i,
                forall|j: int| 0 <= j < i ==> (#[trigger] out@[j])@ == Tree::Str(items@[j]@),
        {
            out.push(Json::Str(items[i].clone()));
        }
        let result = Json::Array(out);
        proof {
            assert(trees(out@) =~= text_array(crate::text::texts(items@))->Array_0);
        }
        result
    }

    /// The string, where the value is one.
    pub fn as_str(&self) -> (result: Option<&String>)
        ensures
            match result {
                Some(s) => self@ == Tree::Str(s@),
                None => !(self@ is Str),
            },
    {
        match self {
            Json::Str(s) => Some(s),
            _ => None,
        }
    }

    /// The items, where the value is an array.
    pub fn as_array(&self) -> (result: Option<&Vec<Json>>)
        ensures
            match result {
                Some(items) => self@ == Tree::Array(trees(items@)),
                None => !(self@ is Array),
            },
    {
        broadcast use view_of_parts;

        match self {
            Json::Array(items) => Some(items),
            _ => None,
        }
    }

    /// The number, where the value is a whole one that is not negative.
    pub fn as_uint(&self) -> (result: Option<u64>)
        ensures
            match result {
                Some(n) => self@ == Tree::UInt(n),
                None => !(self@ is UInt),
            },
    {
        match self {
            Json::UInt(n) => Some(*n),
            Json::Int(n) => if *n < 0 { None } else { Some(*n as u64) },
            Json::Float(n) => as_u64(n),
            _ => None,
        }
    }

    /// The truth value, where the value is one.
    pub fn as_bool(&self) -> (result: Option<bool>)
        ensures
            match result {
                Some(b) => self@ == Tree::Bool(b),
                None => !(self@ is Bool),
            },
    {
        match self {
            Json::Bool(b) => Some(*b),
            _ => None,
        }
    }

    /// Whether the value is `null`.
    pub fn is_null(&self) -> (result: bool)
        ensures
            result == (self@ == Tree::Null),
    {
        match self {
            Json::Null => true,
            _ => false,
        }
    }

    /// Whether the value is an object.
    pub fn is_object(&self) -> (result: bool)
        ensures
            result == (self@ is Object),
    {
        match self {
            Json::Object(_) => true,
            _ => false,
        }
    }

    /// The member of that name, where the value is an object that has one.
    pub fn get(&self, key: &str) -> (result: Option<&Json>)
        ensures
            match result {
                Some(value) => member(self@, key@) == Some(value@),
                None => member(self@, key@) is None,
            },
    {
        broadcast use view_of_parts;

        match self {
            Json::Object(fields) => {
                let mut i: usize = fields.len();
                assert(members(fields@).take(fields@.len() as int) =~= members(fields@));
                while i > 0
                    invariant
                        i <= fields@.len(),
                        *self == Json::Object(*fields),
                        lookup(members(fields@), key@) == lookup(
                            members(fields@).take(i as int),
                            key@,
                        ),
                    decreases i,
                {
                    let ghost part = members(fields@).take(i as int);
                    assert(part.last() == (fields@[i - 1].0@, fields@[i - 1].1@));
                    assert(part.drop_last() =~= members(fields@).take(i - 1));
                    if crate::text::same_text(fields[i - 1].0.as_str(), key) {
                        proof {
                            view_of_parts(*self);
                        }
                        return Some(&fields[i - 1].1);
                    }
                    i -= 1;
                }
                None
            },
            _ => None,
        }
    }

    /// A value of the same tree.
    pub fn copy(&self) -> (result: Json)
        ensures
            result@ == self@,
        decreases self,
    {
        broadcast use view_of_parts;

        match self {
            Json::Null => Json::Null,
            Json::Bool(b) => Json::Bool(*b),
            Json::UInt(n) => Json::UInt(*n),
            Json::Int(n) => Json::Int(*n),
            Json::Float(n) => Json::Float(n.clone()),
            Json::Str(s) => Json::Str(s.clone()),
            Json::Array(items) => {
                let mut out: Vec<Json> = Vec::new();
                let mut i: usize = 0;
                while i < items.len()
                    invariant
                        i <= items@.len(),
                        out@.len() == i,
                        self == Json::Array(*items),
                        forall|j: int| 0 <= j < i ==> (#[trigger] out@[j])@ == items@[j]@,
                    decreases items.len() - i,
                {
                    proof {
                        assert(decreases_to!(*self => self->Array_0));
                        assert(decreases_to!(*items => items@));
                    }
                    out.push(items[i].copy());
                    i += 1;
                }
                assert(trees(out@) =~= trees(items@));
                Json::Array(out)
            },
            Json::Object(fields) => {
                let mut out: Vec<(String, Json)> = Vec::new();
                let mut i: usize = 0;
                while i < fields.len()
                    invariant
                        i <= fields@.len(),
                        out@.len() == i,
                        self == Json::Object(*fields),
                        forall|j: int|
                            0 <= j < i ==> (#[trigger] out@[j]).0@ == fields@[j].0@ && out@[j].1@
                                == fields@[j].1@,
                    decreases fields.len() - i,
                {
                    proof {
                        assert(decreases_to!(*self => self->Object_0));
                        assert(decreases_to!(*fields => fields@));
                        assert(decreases_to!(fields@ => fields@[i as int]));
                    }
                    let entry = &fields[i];
                    out.push((entry.0.clone(), entry.1.copy()));
                    i += 1;
                }
                assert(members(out@) =~= members(fields@));
                Json::Object(out)
            },
        }
    }

    /// The members of an object, to change them; none where the value is not an object.
    pub fn into_fields(self) -> (result: Option<Fields>)
        ensures
            match result {
                Some(fields) => self@ == Tree::Object(fields@),
                None => !(self@ is Object),
            },
    {
        broadcast use view_of_parts;

        match self {
            Json::Object(items) => Some(Fields { items }),
            _ => None,
        }
    }
}

impl Clone for Json {
    fn clone(&self) -> (result: Json)
        ensures
            result@ == self@,
    {
        self.copy()
    }
}

/// `serde_json::Value`, any JSON value as that crate holds it.
#[verifier::external_type_specification]
#[verifier::external_body]
pub struct ExValue(serde_json::Value);

/// `serde_json::Number`, a JSON number as that crate holds it.
#[verifier::external_type_specification]
#[verifier::external_body]
pub struct ExNumber(serde_json::Number);

/// `serde_json::Error`, why a text is not JSON.
#[verifier::external_type_specification]
#[verifier::external_body]
pub struct ExError(serde_json::Error);

/// `serde_json::Map`, the members of an object as that crate holds them.
#[verifier::external_type_specification]
#[verifier::external_body]
#[verifier::reject_recursive_types(K)]
#[verifier::reject_recursive_types(V)]
pub struct ExMap<K, V>(serde_json::Map<K, V>);

/// The JSON value that a `serde_json::Value` holds.
pub uninterp spec fn value_tree(value: serde_json::Value) -> Tree;

/// The members that a `serde_json::Map` holds, in the order in which it yields them.
pub uninterp spec fn map_members(map: serde_json::Map<String, serde_json::Value>) -> Seq<
    (Seq<char>, Tree),
>;

/// What `serde_json::Number::as_u64` gives.
pub uninterp spec fn number_u64(number: serde_json::Number) -> Option<u64>;

/// What `serde_json::Number::as_i64` gives.
pub uninterp spec fn number_i64(number: serde_json::Number) -> Option<i64>;

/// The JSON value that a text spells, or none where it is not JSON.
pub uninterp spec fn json_parse(text: Seq<u8>) -> Option<Tree>;

/// The JSON text of a value.
pub uninterp spec fn json_text(value: Tree) -> Seq<u8>;

/// The JSON text of an object, its members written in the order given.
pub uninterp spec fn members_text(members: Seq<(Seq<char>, Tree)>) -> Seq<u8>;

/// The number as a JSON value: whole and not negative, negative, or neither.
pub open spec fn number_tree(number: serde_json::Number) -> Tree {
    match number_u64(number) {
        Some(n) => Tree::UInt(n),
        None => match number_i64(number) {
            Some(n) => Tree::Int(n),
            None => Tree::Float(number),
        },
    }
}

/// One level of a `serde_json::Value`.
pub(crate) enum Node {
    /// `null`.
    Null,
    /// `true` or `false`.
    Bool(bool),
    /// A number.
    Number(serde_json::Number),
    /// A string.
    Str(String),
    /// An array.
    Array(Vec<serde_json::Value>),
    /// An object.
    Object(serde_json::Map<String, serde_json::Value>),
}

/// The trees of the values of an array.
pub open spec fn value_trees(items: Seq<serde_json::Value>) -> Seq<Tree> {
    Seq::new(items.len(), |i: int| value_tree(items[i]))
}

/// The members that key and value pairs stand for.
pub open spec fn value_members(items: Seq<(String, serde_json::Value)>) -> Seq<
    (Seq<char>, Tree),
> {
    Seq::new(items.len(), |i: int| (items[i].0@, value_tree(items[i].1)))
}

/// The JSON value that one level stands for.
pub(crate) open spec fn node_tree(node: Node) -> Tree {
    match node {
        Node::Null => Tree::Null,
        Node::Bool(b) => Tree::Bool(b),
        Node::Number(n) => number_tree(n),
        Node::Str(s) => Tree::Str(s@),
        Node::Array(items) => Tree::Array(value_trees(items@)),
        Node::Object(map) => Tree::Object(map_members(map)),
    }
}

/// Takes a `serde_json::Value` apart into its variant; the value it holds is unchanged.
#[verifier::external_body]
fn open_value(value: serde_json::Value) -> (result: Node)
    ensures
        node_tree(result) == value_tree(value),
{
    match value {
        serde_json::Value::Null => Node::Null,
        serde_json::Value::Bool(b) => Node::Bool(b),
        serde_json::Value::Number(n) => Node::Number(n),
        serde_json::Value::String(s) => Node::Str(s),
        serde_json::Value::Array(items) => Node::Array(items),
        serde_json::Value::Object(map) => Node::Object(map),
    }
}

/// Puts a `serde_json::Value` together from one of its variants; the value it holds is the same.
#[verifier::external_body]
fn close_value(node: Node) -> (result: serde_json::Value)
    ensures
        value_tree(result) == node_tree(node),
{
    match node {
        Node::Null => serde_json::Value::Null,
        Node::Bool(b) => serde_json::Value::Bool(b),
        Node::Number(n) => serde_json::Value::Number(n),
        Node::Str(s) => serde_json::Value::String(s),
        Node::Array(items) => serde_json::Value::Array(items),
        Node::Object(map) => serde_json::Value::Object(map),
    }
}

/// Collects what `serde_json::Map::into_iter` yields: the members of the map, in its order.
#[verifier::external_body]
fn map_entries(map: serde_json::Map<String, serde_json::Value>) -> (result: Vec<
    (String, serde_json::Value),
>)
    ensures
        value_members(result@) == map_members(map),
{
    map.into_iter().collect()
}

/// `serde_json::Map::from_iter`: a map with one member for each name among the entries, the last
/// entry of a name being the one that stays. The map is a `BTreeMap` and yields its members in
/// the order of their names.
#[verifier::external_body]
fn map_of(entries: Vec<(String, serde_json::Value)>) -> (result: serde_json::Map<
    String,
    serde_json::Value,
>)
    ensures
        sorted_names(map_members(result)),
        forall|key: Seq<char>|
            #[trigger] lookup(map_members(result), key) == lookup(value_members(entries@), key),
{
    entries.into_iter().collect()
}

/// `serde_json::Number::as_u64`: the number where it is whole and not negative.
#[verifier::external_body]
fn as_u64(number: &serde_json::Number) -> (result: Option<u64>)
    ensures
        result == number_u64(*number),
{
    number.as_u64()
}

/// `serde_json::Number::as_i64`: the number where it is whole and fits an `i64`. A number that
/// `as_i64` gives and `as_u64` does not is negative.
#[verifier::external_body]
fn as_i64(number: &serde_json::Number) -> (result: Option<i64>)
    ensures
        result == number_i64(*number),
        number_u64(*number) is None && result is Some ==> result->0 < 0,
{
    number.as_i64()
}

/// `serde_json::Number::from` a `u64`: the number that `as_u64` gives back.
#[verifier::external_body]
fn number_from_u64(n: u64) -> (result: serde_json::Number)
    ensures
        number_u64(result) == Some(n),
{
    serde_json::Number::from(n)
}

/// `serde_json::Number::from` an `i64`: the number that `as_i64` gives back, and one that
/// `as_u64` gives where it is not negative.
#[verifier::external_body]
fn number_from_i64(n: i64) -> (result: serde_json::Number)
    ensures
        number_i64(result) == Some(n),
        number_u64(result) == (if n < 0 { None } else { Some(n as u64) }),
{
    serde_json::Number::from(n)
}

/// `serde_json::Number::clone`: the same number.
pub assume_specification[ <serde_json::Number as Clone>::clone ](
    number: &serde_json::Number,
) -> (result: serde_json::Number)
    ensures
        result == *number,
;

/// `serde_json::from_slice` into a `serde_json::Value`: the value that the text spells, or an
/// error where the text is not JSON. Which texts are JSON, and what they spell, is named by
/// [`json_parse`].
#[verifier::external_body]
fn from_slice(text: &[u8]) -> (result: Result<serde_json::Value, serde_json::Error>)
    ensures
        match result {
            Ok(value) => json_parse(text@) == Some(value_tree(value)),
            Err(_) => json_parse(text@) is None,
        },
{
    serde_json::from_slice(text)
}

/// Whether a text spells a value, but for its fractional numbers.
pub open spec fn spells(text: Seq<u8>, value: Tree) -> bool {
    json_parse(text) matches Some(read) && alike(value, read)
}

/// `serde_json::to_vec` of a `serde_json::Value`: its JSON text, which never fails and is valid
/// UTF-8. A value that is nested less deeply than the parser's limit, and has no object that begins
/// with the reserved name, is what its text spells, but for fractional numbers: each is read as
/// one, which need not be the same to the last digit.
#[verifier::external_body]
fn to_vec(value: &serde_json::Value) -> (result: Vec<u8>)
    ensures
        result@ == json_text(value_tree(*value)),
        valid_utf8(result@),
        plain(value_tree(*value), 127) ==> spells(result@, value_tree(*value)),
{
    serde_json::to_vec(value).expect("a JSON value always serializes")
}

/// Whether a text spells the object of some members, but for their fractional numbers, in the order
/// of the names, the last member of a name being the one that stays.
pub open spec fn spells_object(text: Seq<u8>, members: Seq<(Seq<char>, Tree)>) -> bool {
    json_parse(text) matches Some(Tree::Object(fields)) && sorted_names(fields) && forall|
        key: Seq<char>,
    | alike_if_any(lookup(members, key), #[trigger] lookup(fields, key))
}

/// Whether members written in this order are read as an object.
pub open spec fn writable(members: Seq<(Seq<char>, Tree)>) -> bool {
    plain(Tree::Object(members), 127) && (members.len() > 0 ==> members[0].0 != reserved_name())
}

/// `serde::Serializer::collect_map` of a `serde_json::Serializer`: the JSON text of an object with
/// these members in this order, named by [`members_text`], which never fails and is valid UTF-8.
/// A plain object whose first member is not of the reserved name is what its text spells, but for
/// fractional numbers.
#[verifier::external_body]
fn write_members(entries: &Vec<(String, serde_json::Value)>) -> (result: Vec<u8>)
    ensures
        result@ == members_text(value_members(entries@)),
        valid_utf8(result@),
        writable(value_members(entries@)) ==> spells_object(result@, value_members(entries@)),
{
    let mut text: Vec<u8> = Vec::new();
    let mut writer = serde_json::Serializer::new(&mut text);
    let members = entries.iter().map(|entry| (&entry.0, &entry.1));
    serde::Serializer::collect_map(&mut writer, members).expect("a JSON object always serializes");
    text
}

/// The value that a `serde_json::Value` holds.
pub fn from_value(value: serde_json::Value) -> (result: Json)
    ensures
        result@ == value_tree(value),
    decreases value_tree(value),
{
    broadcast use view_of_parts;

    match open_value(value) {
        Node::Null => Json::Null,
        Node::Bool(b) => Json::Bool(b),
        Node::Number(n) => match as_u64(&n) {
            Some(k) => Json::UInt(k),
            None => match as_i64(&n) {
                Some(k) => Json::Int(k),
                None => Json::Float(n),
            },
        },
        Node::Str(s) => Json::Str(s),
        Node::Array(items) => {
            let ghost all = items@;
            let mut rest: Vec<serde_json::Value> = items;
            let mut back: Vec<serde_json::Value> = Vec::new();
            while rest.len() > 0
                invariant
                    rest@ =~= all.take(rest@.len() as int),
                    rest@.len() <= all.len(),
                    back@ =~= all.skip(rest@.len() as int).reverse(),
                decreases rest.len(),
            {
                if let Some(last) = rest.pop() {
                    back.push(last);
                }
            }
            let mut out: Vec<Json> = Vec::new();
            while back.len() > 0
                invariant
                    back@.len() <= all.len(),
                    back@ =~= all.skip(all.len() - back@.len()).reverse(),
                    out@.len() == all.len() - back@.len(),
                    forall|j: int| 0 <= j < out@.len() ==> (#[trigger] out@[j])@ == value_tree(all[j]),
                    value_tree(value) == Tree::Array(value_trees(all)),
                decreases back.len(),
            {
                let ghost at = all.len() - back@.len();
                if let Some(next) = back.pop() {
                    proof {
                        assert(next == all[at]);
                        assert(value_trees(all)[at] == value_tree(next));
                        assert(decreases_to!(value_tree(value) => value_tree(value)->Array_0));
                        assert(decreases_to!(value_trees(all) => value_trees(all)[at]));
                    }
                    out.push(from_value(next));
                }
            }
            assert(trees(out@) =~= value_trees(all));
            Json::Array(out)
        },
        Node::Object(map) => {
            let entries: Vec<(String, serde_json::Value)> = map_entries(map);
            let ghost all = entries@;
            let mut rest: Vec<(String, serde_json::Value)> = entries;
            let mut back: Vec<(String, serde_json::Value)> = Vec::new();
            while rest.len() > 0
                invariant
                    rest@ =~= all.take(rest@.len() as int),
                    rest@.len() <= all.len(),
                    back@ =~= all.skip(rest@.len() as int).reverse(),
                decreases rest.len(),
            {
                if let Some(last) = rest.pop() {
                    back.push(last);
                }
            }
            let mut out: Vec<(String, Json)> = Vec::new();
            while back.len() > 0
                invariant
                    back@.len() <= all.len(),
                    back@ =~= all.skip(all.len() - back@.len()).reverse(),
                    out@.len() == all.len() - back@.len(),
                    forall|j: int|
                        0 <= j < out@.len() ==> (#[trigger] out@[j]).0@ == all[j].0@ && out@[j].1@
                            == value_tree(all[j].1),
                    value_tree(value) == Tree::Object(value_members(all)),
                decreases back.len(),
            {
                let ghost at = all.len() - back@.len();
                if let Some((key, next)) = back.pop() {
                    proof {
                        assert((key, next) == all[at]);
                        assert(value_members(all)[at] == (key@, value_tree(next)));
                        assert(decreases_to!(value_tree(value) => value_tree(value)->Object_0));
                        assert(decreases_to!(value_members(all) => value_members(all)[at]));
                        assert(decreases_to!(value_members(all)[at] => value_members(all)[at].1));
                    }
                    out.push((key, from_value(next)));
                }
            }
            assert(members(out@) =~= value_members(all));
            Json::Object(out)
        },
    }
}

/// The JSON value that a text spells, or none where it is not JSON.
pub fn parse(text: &[u8]) -> (result: Option<Json>)
    ensures
        match result {
            Some(value) => json_parse(text@) == Some(value@),
            None => json_parse(text@) is None,
        },
{
    match from_slice(text) {
        Ok(value) => Some(from_value(value)),
        Err(_) => None,
    }
}

/// The value as `serde_json` holds it: in canonical form.
pub fn to_value(value: &Json) -> (result: serde_json::Value)
    ensures
        canonical_form(value@, value_tree(result)),
        forall|d: nat| plain(value@, d) ==> #[trigger] plain(value_tree(result), d),
    decreases value,
{
    broadcast use view_of_parts;

    match value {
        Json::Null => close_value(Node::Null),
        Json::Bool(b) => close_value(Node::Bool(*b)),
        Json::UInt(n) => close_value(Node::Number(number_from_u64(*n))),
        Json::Int(n) => close_value(Node::Number(number_from_i64(*n))),
        Json::Float(n) => close_value(Node::Number(n.clone())),
        Json::Str(s) => close_value(Node::Str(s.clone())),
        Json::Array(items) => {
            let mut out: Vec<serde_json::Value> = Vec::new();
            let mut i: usize = 0;
            while i < items.len()
                invariant
                    i <= items@.len(),
                    out@.len() == i,
                    *value == Json::Array(*items),
                    forall|j: int|
                        0 <= j < i ==> canonical_form(items@[j]@, value_tree(#[trigger] out@[j])),
                    forall|j: int, d: nat|
                        0 <= j < i && plain(items@[j]@, d) ==> #[trigger] plain(
                            value_tree(out@[j]),
                            d,
                        ),
                decreases items.len() - i,
            {
                proof {
                    assert(decreases_to!(*value => value->Array_0));
                    assert(decreases_to!(*items => items@));
                }
                out.push(to_value(&items[i]));
                i += 1;
            }
            let ghost x = trees(items@);
            let ghost y = value_trees(out@);
            proof {
                assert forall|j: int| 0 <= j < x.len() implies canonical_form(#[trigger] x[j], y[j]) by {
                    assert(canonical_form(items@[j]@, value_tree(out@[j])));
                }
                assert forall|d: nat| plain(Tree::Array(x), d) implies plain(Tree::Array(y), d) by {
                    assert forall|j: int| 0 <= j < y.len() implies plain(
                        #[trigger] y[j],
                        (d - 1) as nat,
                    ) by {
                        plain_item(x, d, j);
                        assert(plain(value_tree(out@[j]), (d - 1) as nat));
                    }
                }
            }
            close_value(Node::Array(out))
        },
        Json::Object(fields) => {
            let mut out: Vec<(String, serde_json::Value)> = Vec::new();
            let mut i: usize = 0;
            while i < fields.len()
                invariant
                    i <= fields@.len(),
                    out@.len() == i,
                    *value == Json::Object(*fields),
                    forall|j: int|
                        0 <= j < i ==> (#[trigger] out@[j]).0@ == fields@[j].0@ && canonical_form(
                            fields@[j].1@,
                            value_tree(out@[j].1),
                        ),
                    forall|j: int, d: nat|
                        0 <= j < i && plain(fields@[j].1@, d) ==> #[trigger] plain(
                            value_tree(out@[j].1),
                            d,
                        ),
                decreases fields.len() - i,
            {
                proof {
                    assert(decreases_to!(*value => value->Object_0));
                    assert(decreases_to!(*fields => fields@));
                    assert(decreases_to!(fields@ => fields@[i as int]));
                }
                let entry = &fields[i];
                out.push((entry.0.clone(), to_value(&entry.1)));
                i += 1;
            }
            let ghost x = members(fields@);
            let ghost y = value_members(out@);
            let map: serde_json::Map<String, serde_json::Value> = map_of(out);
            proof {
                assert forall|j: int| 0 <= j < x.len() implies (#[trigger] x[j]).0 == y[j].0
                    && canonical_form(x[j].1, y[j].1) by {
                    assert(out@[j].0@ == fields@[j].0@);
                }
                assert forall|j: int, d: nat| 0 <= j < x.len() && plain(x[j].1, d) implies
                    #[trigger] plain(y[j].1, d) by {
                    assert(plain(value_tree(out@[j].1), d));
                }
                ordered_object_is_canonical(x, y, map_members(map));
            }
            close_value(Node::Object(map))
        },
    }
}

/// Whether members have the same names and, in canonical form, the same values as others.
pub open spec fn canonical_members(a: Seq<(Seq<char>, Tree)>, b: Seq<(Seq<char>, Tree)>) -> bool {
    a.len() == b.len() && forall|i: int|
        0 <= i < a.len() ==> (#[trigger] a[i]).0 == b[i].0 && canonical_form(a[i].1, b[i].1)
}

/// Members whose canonical forms were written are read back as a reading of them.
proof fn written_members_are_read(
    x: Seq<(Seq<char>, Tree)>,
    y: Seq<(Seq<char>, Tree)>,
    z: Seq<(Seq<char>, Tree)>,
)
    requires
        canonical_members(x, y),
        sorted_names(z),
        forall|key: Seq<char>| alike_if_any(lookup(y, key), #[trigger] lookup(z, key)),
    ensures
        reading_of(Tree::Object(x), Tree::Object(z)),
{
    assert forall|i: int| 0 <= i < x.len() implies ({
        let name = (#[trigger] x[i]).0;
        lookup(z, name) matches Some(other) && (lookup(x, name) == Some(x[i].1) ==> reading_of(
            x[i].1,
            other,
        ))
    }) by {
        let name = x[i].0;
        lookup_present(x, i);
        assert(x[i].0 == y[i].0);
        lookup_present(y, i);
        let k = lookup_found(x, name);
        assert forall|j: int| k < j < y.len() implies (#[trigger] y[j]).0 != y[k].0 by {
            assert(x[j].0 == y[j].0);
        }
        assert(y[k].0 == x[k].0);
        lookup_last(y, k);
        assert(alike_if_any(lookup(y, name), lookup(z, name)));
        readings_are_alike(x[k].1, y[k].1, lookup(z, name)->0);
    }
    assert forall|name: Seq<char>| (#[trigger] lookup(z, name)) is Some implies lookup(x, name) is Some by {
        assert(alike_if_any(lookup(y, name), lookup(z, name)));
        let k = lookup_found(y, name);
        assert(x[k].0 == y[k].0);
        lookup_present(x, k);
    }
}

/// The JSON text of an object whose members are written in the order in which they were put in.
/// The text is read back, but for fractional numbers, wherever the members are [`writable`].
pub fn object_bytes(fields: Fields) -> (result: Vec<u8>)
    ensures
        exists|m: Seq<(Seq<char>, Tree)>|
            #![trigger members_text(m)]
            canonical_members(fields@, m) && result@ == members_text(m),
        valid_utf8(result@),
        writable(fields@) ==> (json_parse(result@) matches Some(t) && reading_of(
            Tree::Object(fields@),
            t,
        )),
{
    let items: &Vec<(String, Json)> = &fields.items;
    let mut out: Vec<(String, serde_json::Value)> = Vec::new();
    for i in 0..items.len()
        invariant
            out@.len() == i,
            forall|j: int|
                0 <= j < i ==> (#[trigger] out@[j]).0@ == items@[j].0@ && canonical_form(
                    items@[j].1@,
                    value_tree(out@[j].1),
                ),
            forall|j: int, d: nat|
                0 <= j < i && plain(items@[j].1@, d) ==> #[trigger] plain(
                    value_tree(out@[j].1),
                    d,
                ),
    {
        out.push((items[i].0.clone(), to_value(&items[i].1)));
    }
    let result: Vec<u8> = write_members(&out);
    proof {
        let x = fields@;
        let y = value_members(out@);
        assert forall|j: int| 0 <= j < x.len() implies (#[trigger] x[j]).0 == y[j].0
            && canonical_form(x[j].1, y[j].1) by {
            assert(out@[j].0@ == items@[j].0@);
        }
        assert forall|j: int, d: nat| 0 <= j < x.len() && plain(x[j].1, d) implies #[trigger] plain(
            y[j].1,
            d,
        ) by {
            assert(plain(value_tree(out@[j].1), d));
        }
        assert(canonical_members(x, y) && result@ == members_text(y));
        if writable(x) {
            assert forall|j: int| 0 <= j < y.len() implies plain((#[trigger] y[j]).1, 126) by {
                plain_member(x, 127, j);
                assert(x[j].0 == y[j].0);
                assert(plain(x[j].1, 126));
            }
            if begins_reserved(y) {
                let k = lookup_found(y, reserved_name());
                assert(x[k].0 == y[k].0);
                lookup_present(x, k);
                assert forall|i: int| 0 <= i < x.len() implies (#[trigger] x[i]).0
                    == reserved_name() || crate::text::precedes(reserved_name(), x[i].0) by {
                    assert(x[i].0 == y[i].0);
                }
                assert(begins_reserved(x));
            }
            if y.len() > 0 {
                assert(x[0].0 == y[0].0);
            }
            assert(writable(y));
            written_members_are_read(x, y, json_parse(result@)->0->Object_0);
        }
    }
    result
}

/// The JSON text of a value: that of its canonical form, which is read back but for its fractional
/// numbers wherever the value is [`plain`].
pub fn to_bytes(value: &Json) -> (result: Vec<u8>)
    ensures
        exists|t: Tree|
            #![trigger json_text(t)]
            canonical_form(value@, t) && result@ == json_text(t),
        plain(value@, 127) ==> (json_parse(result@) matches Some(read) && reading_of(value@, read)),
        valid_utf8(result@),
{
    let held: serde_json::Value = to_value(value);
    let result: Vec<u8> = to_vec(&held);
    proof {
        let t = value_tree(held);
        assert(canonical_form(value@, t) && result@ == json_text(t));
        if plain(value@, 127) {
            assert(plain(t, 127));
            readings_are_alike(value@, t, json_parse(result@)->0);
        }
    }
    result
}

} // verus!
