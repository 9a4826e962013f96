//! The settings-document model, the built-in default configuration, and the
//! shallow merge of user settings over the defaults.
//!
//! A settings document is a tree: null, a boolean, an integer, a text, a list
//! of documents, or an object holding ordered key/value entries.  The merge is
//! one level deep: when both inputs are objects, every top-level key of the
//! override is inserted into (or overwrites in) the default document; when the
//! override is null the default survives unchanged; otherwise the override
//! replaces the default wholesale.
//!
//! The workspace configuration is always the defaulting merge: it starts from
//! the built-in defaults and lets user settings override them key by key.
//! User settings are never handed through bare — a key the user does not set
//! keeps its default.

use vstd::prelude::*;

verus! {

broadcast use vstd::std_specs::vec::group_vec_axioms, vstd::seq::group_seq_axioms;

/// The mathematical model of a settings document.
#[verifier::ext_equal]
pub enum Doc {
    Null,
    Bool(bool),
    Int(int),
    Text(Seq<char>),
    List(Seq<Doc>),
    Object(Seq<(Seq<char>, Doc)>),
}

/// Whether some entry of `es` carries the key `k`.
pub open spec fn has_key(es: Seq<(Seq<char>, Doc)>, k: Seq<char>) -> bool
    decreases es.len(),
{
    es.len() != 0 && (es.first().0 == k || has_key(es.drop_first(), k))
}

/// The value of the first entry of `es` carrying the key `k`; null when no
/// entry does.
pub open spec fn lookup(es: Seq<(Seq<char>, Doc)>, k: Seq<char>) -> Doc
    decreases es.len(),
{
    if es.len() == 0 {
        Doc::Null
    } else if es.first().0 == k {
        es.first().1
    } else {
        lookup(es.drop_first(), k)
    }
}

/// The entries of `d` whose keys do not occur in `u`, in their original order.
pub open spec fn minus_keys(
    d: Seq<(Seq<char>, Doc)>,
    u: Seq<(Seq<char>, Doc)>,
) -> Seq<(Seq<char>, Doc)>
    decreases d.len(),
{
    if d.len() == 0 {
        Seq::empty()
    } else if has_key(u, d.first().0) {
        minus_keys(d.drop_first(), u)
    } else {
        seq![d.first()] + minus_keys(d.drop_first(), u)
    }
}

/// Merged object entries: the default entries that the override does not
/// mention, followed by every override entry.
pub open spec fn merge_entries(
    d: Seq<(Seq<char>, Doc)>,
    u: Seq<(Seq<char>, Doc)>,
) -> Seq<(Seq<char>, Doc)> {
    minus_keys(d, u) + u
}

/// The merge of an override document `u` over a default document `d`.
pub open spec fn merge_doc(d: Doc, u: Doc) -> Doc {
    match (d, u) {
        (Doc::Object(de), Doc::Object(ue)) => Doc::Object(merge_entries(de, ue)),
        _ => if u is Null {
            d
        } else {
            u
        },
    }
}

/// No two entries of `es` carry the same key.
pub open spec fn keys_unique(es: Seq<(Seq<char>, Doc)>) -> bool
    decreases es.len(),
{
    es.len() == 0 || (!has_key(es.drop_first(), es.first().0) && keys_unique(es.drop_first()))
}

/// A well-formed document: every object in the tree has pairwise-distinct
/// keys.
pub open spec fn wf_doc(d: Doc) -> bool
    decreases d,
{
    match d {
        Doc::List(items) => forall|i: int| 0 <= i < items.len() ==> wf_doc(#[trigger] items[i]),
        Doc::Object(es) => keys_unique(es) && forall|i: int|
            0 <= i < es.len() ==> wf_doc(#[trigger] es[i].1),
        _ => true,
    }
}

/// An executable settings document.  Its view is a [`Doc`].
#[derive(Debug, PartialEq)]
pub enum SettingsValue {
    Null,
    Bool(bool),
    Int(i64),
    Text(String),
    List(Vec<SettingsValue>),
    Object(Vec<(String, SettingsValue)>),
}

/// The model of a sequence of executable object entries.
pub open spec fn pairs_view(s: Seq<(String, SettingsValue)>) -> Seq<(Seq<char>, Doc)> {
    Seq::new(s.len(), |i: int| (s[i].0@, s[i].1@))
}

/// The document denoted by an executable settings value.
pub open spec fn doc_of(v: SettingsValue) -> Doc
    decreases v,
{
    match v {
        SettingsValue::Null => Doc::Null,
        SettingsValue::Bool(b) => Doc::Bool(b),
        SettingsValue::Int(n) => Doc::Int(n as int),
        SettingsValue::Text(s) => Doc::Text(s@),
        // the out-of-range guards are only there to let the recursion's
        // termination be checked; `Seq::new` never applies the closure
        // outside the range
        SettingsValue::List(items) => Doc::List(
            Seq::new(
                items@.len(),
                |i: int|
                    if 0 <= i < items@.len() {
                        doc_of(items@[i])
                    } else {
                        Doc::Null
                    },
            ),
        ),
        SettingsValue::Object(es) => Doc::Object(
            Seq::new(
                es@.len(),
                |i: int|
                    if 0 <= i < es@.len() {
                        (es@[i].0@, doc_of(es@[i].1))
                    } else {
                        (Seq::empty(), Doc::Null)
                    },
            ),
        ),
    }
}

impl View for SettingsValue {
    type V = Doc;

    open spec fn view(&self) -> Doc {
        doc_of(*self)
    }
}

/// `has_key` agrees with the existence of an index carrying the key.
pub proof fn lemma_has_key_index(es: Seq<(Seq<char>, Doc)>, k: Seq<char>)
    ensures
        has_key(es, k) <==> exists|i: int| 0 <= i < es.len() && es[i].0 == k,
    decreases es.len(),
{
    if es.len() != 0 {
        lemma_has_key_index(es.drop_first(), k);
        if es.first().0 == k {
            assert(es[0].0 == k);
        } else if has_key(es.drop_first(), k) {
            let i = choose|i: int| 0 <= i < es.drop_first().len() && es.drop_first()[i].0 == k;
            assert(es[i + 1].0 == k);
        } else if exists|i: int| 0 <= i < es.len() && es[i].0 == k {
            let i = choose|i: int| 0 <= i < es.len() && es[i].0 == k;
            assert(es.drop_first()[i - 1].0 == k);
        }
    }
}

/// Whether some entry of `es` carries the key `k`.
pub fn object_has_key(es: &Vec<(String, SettingsValue)>, k: &String) -> (r: bool)
    ensures
        r == has_key(pairs_view(es@), k@),
{
    let mut i: usize = 0;
    while i < es.len()
        invariant
            i <= es@.len(),
            forall|j: int| 0 <= j < i ==> pairs_view(es@)[j].0 != k@,
        decreases es@.len() - i,
    {
        if es[i].0 == *k {
            proof {
                let w = i as int;
                assert(0 <= w < pairs_view(es@).len() && pairs_view(es@)[w].0 == k@);
                lemma_has_key_index(pairs_view(es@), k@);
            }
            return true;
        }
        i += 1;
    }
    proof {
        lemma_has_key_index(pairs_view(es@), k@);
    }
    false
}

/// Merges `user` over `default`, one level deep: when both are objects the
/// result is an object whose entries are the default entries the user did not
/// override, followed by every user entry; a null user document leaves the
/// default unchanged; any other user document replaces the default.
pub fn merge(default: SettingsValue, user: SettingsValue) -> (r: SettingsValue)
    ensures
        r@ == merge_doc(default@, user@),
{
    match (default, user) {
        (SettingsValue::Object(mut des), SettingsValue::Object(mut ues)) => {
            let ghost d0 = pairs_view(des@);
            let ghost u0 = pairs_view(ues@);
            proof {
                assert(default@ is Object);
                assert(default@->Object_0 =~= d0);
                assert(user@->Object_0 =~= u0);
            }
            let mut out: Vec<(String, SettingsValue)> = Vec::new();
            while des.len() > 0
                invariant
                    pairs_view(out@) + minus_keys(pairs_view(des@), u0) =~= minus_keys(d0, u0),
                    pairs_view(ues@) == u0,
                decreases des@.len(),
            {
                let ghost before = pairs_view(des@);
                let ghost des_before = des@;
                let e = des.remove(0);
                proof {
                    assert(des@ =~= des_before.drop_first());
                    assert(pairs_view(des@) =~= before.drop_first());
                    assert(before.first() == (e.0@, e.1@));
                }
                let ghost outv = pairs_view(out@);
                if !object_has_key(&ues, &e.0) {
                    out.push(e);
                    proof {
                        assert(!has_key(u0, before.first().0));
                        assert(minus_keys(before, u0) == seq![before.first()] + minus_keys(
                            before.drop_first(),
                            u0,
                        ));
                        assert(pairs_view(out@) =~= outv.push(before.first()));
                        assert(pairs_view(out@) + minus_keys(pairs_view(des@), u0) =~= outv + (
                        seq![before.first()] + minus_keys(before.drop_first(), u0)));
                    }
                } else {
                    proof {
                        assert(has_key(u0, before.first().0));
                        assert(minus_keys(before, u0) == minus_keys(before.drop_first(), u0));
                    }
                }
            }
            proof {
                assert(pairs_view(des@) =~= Seq::<(Seq<char>, Doc)>::empty());
                assert(minus_keys(pairs_view(des@), u0) == Seq::<(Seq<char>, Doc)>::empty());
                assert(pairs_view(out@) =~= minus_keys(d0, u0));
            }
            let ghost kept = pairs_view(out@);
            out.append(&mut ues);
            let r = SettingsValue::Object(out);
            proof {
                assert(pairs_view(out@) =~= kept + u0);
                assert(r@->Object_0 =~= pairs_view(out@));
                assert(r@ == Doc::Object(merge_entries(d0, u0)));
                assert(merge_doc(default@, user@) == Doc::Object(
                    merge_entries(default@->Object_0, user@->Object_0),
                ));
            }
            r
        }
        (d, u) => {
            match u {
                SettingsValue::Null => d,
                _ => u,
            }
        }
    }
}

/// The built-in default configuration document.
pub open spec fn default_config_doc() -> Doc {
    Doc::Object(
        seq![
            ("inlay_hints"@, Doc::Bool(true)),
            ("diagnostics"@, Doc::Bool(true)),
            ("up_to_date_hint"@, Doc::Text("✅"@)),
            ("needs_update_hint"@, Doc::Text("❌ {}"@)),
            ("needs_update_severity"@, Doc::Int(2)),
            ("unknown_dep_severity"@, Doc::Int(1)),
            ("up_to_date_severity"@, Doc::Int(4)),
        ],
    )
}

/// Builds the built-in default configuration: inlay hints and diagnostics
/// enabled, the two indicator texts, and the three severity levels.
pub fn default_configuration() -> (r: SettingsValue)
    ensures
        r@ == default_config_doc(),
{
    let mut es: Vec<(String, SettingsValue)> = Vec::new();
    es.push((String::from_str("inlay_hints"), SettingsValue::Bool(true)));
    es.push((String::from_str("diagnostics"), SettingsValue::Bool(true)));
    es.push((String::from_str("up_to_date_hint"), SettingsValue::Text(String::from_str("✅"))));
    es.push(
        (String::from_str("needs_update_hint"), SettingsValue::Text(String::from_str("❌ {}"))),
    );
    es.push((String::from_str("needs_update_severity"), SettingsValue::Int(2)));
    es.push((String::from_str("unknown_dep_severity"), SettingsValue::Int(1)));
    es.push((String::from_str("up_to_date_severity"), SettingsValue::Int(4)));
    let r = SettingsValue::Object(es);
    proof {
        reveal_with_fuel(doc_of, 3);
        assert(es@.len() == 7);
        assert(r@->Object_0[0] == ("inlay_hints"@, Doc::Bool(true)));
        assert(r@->Object_0[1] == ("diagnostics"@, Doc::Bool(true)));
        assert(r@->Object_0[2] == ("up_to_date_hint"@, Doc::Text("✅"@)));
        assert(r@->Object_0[3] == ("needs_update_hint"@, Doc::Text("❌ {}"@)));
        assert(r@->Object_0[4] == ("needs_update_severity"@, Doc::Int(2)));
        assert(r@->Object_0[5] == ("unknown_dep_severity"@, Doc::Int(1)));
        assert(r@->Object_0[6] == ("up_to_date_severity"@, Doc::Int(4)));
        assert(r@->Object_0 =~= default_config_doc()->Object_0);
    }
    r
}

/// The effective configuration: the user document merged one level deep over
/// the built-in defaults.
pub fn effective_configuration(user: SettingsValue) -> (r: SettingsValue)
    ensures
        r@ == merge_doc(default_config_doc(), user@),
{
    merge(default_configuration(), user)
}

/// Pairwise-distinct keys, stated by index, give `keys_unique`.
proof fn lemma_keys_unique_index(es: Seq<(Seq<char>, Doc)>)
    requires
        forall|i: int, j: int| 0 <= i < j < es.len() ==> es[i].0 != es[j].0,
    ensures
        keys_unique(es),
    decreases es.len(),
{
    if es.len() != 0 {
        assert forall|i: int, j: int|
            0 <= i < j < es.drop_first().len() implies es.drop_first()[i].0
            != es.drop_first()[j].0 by {
            assert(es.drop_first()[i] == es[i + 1]);
            assert(es.drop_first()[j] == es[j + 1]);
        }
        lemma_keys_unique_index(es.drop_first());
        lemma_has_key_index(es.drop_first(), es.first().0);
        assert forall|i: int| 0 <= i < es.drop_first().len() implies es.drop_first()[i].0
            != es.first().0 by {
            assert(es.drop_first()[i] == es[i + 1]);
            assert(es[0].0 != es[i + 1].0);
        }
    }
}

/// The built-in default configuration is well formed: its keys are pairwise
/// distinct and its values are leaves.
pub proof fn lemma_default_config_wf()
    ensures
        wf_doc(default_config_doc()),
{
    let es = default_config_doc()->Object_0;
    assert(es.len() == 7);
    assert forall|i: int, j: int| 0 <= i < j < es.len() implies es[i].0 != es[j].0 by {
        reveal_strlit("inlay_hints");
        reveal_strlit("diagnostics");
        reveal_strlit("up_to_date_hint");
        reveal_strlit("needs_update_hint");
        reveal_strlit("needs_update_severity");
        reveal_strlit("unknown_dep_severity");
        reveal_strlit("up_to_date_severity");
        assert(es[0].0 == "inlay_hints"@);
        assert(es[1].0 == "diagnostics"@);
        assert(es[2].0 == "up_to_date_hint"@);
        assert(es[3].0 == "needs_update_hint"@);
        assert(es[4].0 == "needs_update_severity"@);
        assert(es[5].0 == "unknown_dep_severity"@);
        assert(es[6].0 == "up_to_date_severity"@);
        assert("inlay_hints"@.len() == 11);
        assert("diagnostics"@.len() == 11);
        assert("up_to_date_hint"@.len() == 15);
        assert("needs_update_hint"@.len() == 17);
        assert("needs_update_severity"@.len() == 21);
        assert("unknown_dep_severity"@.len() == 20);
        assert("up_to_date_severity"@.len() == 19);
        assert("inlay_hints"@[0] == 'i');
        assert("diagnostics"@[0] == 'd');
    }
    lemma_keys_unique_index(es);
    assert forall|i: int| 0 <= i < es.len() implies wf_doc((#[trigger] es[i]).1) by {
        assert(wf_doc(es[0].1));
        assert(wf_doc(es[1].1));
        assert(wf_doc(es[2].1));
        assert(wf_doc(es[3].1));
        assert(wf_doc(es[4].1));
        assert(wf_doc(es[5].1));
        assert(wf_doc(es[6].1));
    }
}

/// Merging a null override leaves the default document unchanged.
pub proof fn lemma_merge_null(d: Doc)
    ensures
        merge_doc(d, Doc::Null) == d,
{
}

/// No key survives `minus_keys` against an empty override, and every key
/// survives against an override that misses it.
proof fn lemma_minus_keys_all_kept(d: Seq<(Seq<char>, Doc)>, u: Seq<(Seq<char>, Doc)>)
    requires
        forall|i: int| 0 <= i < d.len() ==> !has_key(u, #[trigger] d[i].0),
    ensures
        minus_keys(d, u) == d,
    decreases d.len(),
{
    if d.len() != 0 {
        assert(d[0].0 == d.first().0);
        assert forall|i: int| 0 <= i < d.drop_first().len() implies !has_key(
            u,
            #[trigger] d.drop_first()[i].0,
        ) by {
            assert(d.drop_first()[i] == d[i + 1]);
        }
        lemma_minus_keys_all_kept(d.drop_first(), u);
        assert(minus_keys(d, u) =~= d);
    }
}

/// Merging an empty override object leaves the default document unchanged.
pub proof fn lemma_merge_empty_override(d: Doc)
    requires
        d is Object,
    ensures
        merge_doc(d, Doc::Object(Seq::empty())) == d,
{
    let de = d->Object_0;
    assert forall|i: int| 0 <= i < de.len() implies !has_key(
        Seq::empty(),
        #[trigger] de[i].0,
    ) by {}
    lemma_minus_keys_all_kept(de, Seq::empty());
    assert(merge_entries(de, Seq::empty()) =~= de);
}

/// A key occurs in a concatenation exactly when it occurs in one of the two
/// parts, and its first value comes from the left part when the left part has
/// the key.
proof fn lemma_key_concat(a: Seq<(Seq<char>, Doc)>, b: Seq<(Seq<char>, Doc)>, k: Seq<char>)
    ensures
        has_key(a + b, k) <==> (has_key(a, k) || has_key(b, k)),
        lookup(a + b, k) == if has_key(a, k) {
            lookup(a, k)
        } else {
            lookup(b, k)
        },
    decreases a.len(),
{
    if a.len() == 0 {
        assert(a + b =~= b);
    } else {
        lemma_key_concat(a.drop_first(), b, k);
        assert((a + b).first() == a.first());
        assert((a + b).drop_first() =~= a.drop_first() + b);
    }
}

/// A key survives `minus_keys` exactly when the defaults have it and the
/// override does not, and its value is then unchanged.
proof fn lemma_minus_keys_key(
    d: Seq<(Seq<char>, Doc)>,
    u: Seq<(Seq<char>, Doc)>,
    k: Seq<char>,
)
    ensures
        has_key(minus_keys(d, u), k) <==> (has_key(d, k) && !has_key(u, k)),
        (has_key(d, k) && !has_key(u, k)) ==> lookup(minus_keys(d, u), k) == lookup(d, k),
    decreases d.len(),
{
    if d.len() != 0 {
        lemma_minus_keys_key(d.drop_first(), u, k);
        assert(has_key(d, k) == (d.first().0 == k || has_key(d.drop_first(), k)));
        if has_key(u, d.first().0) {
            assert(minus_keys(d, u) == minus_keys(d.drop_first(), u));
            if d.first().0 != k {
                assert(lookup(d, k) == lookup(d.drop_first(), k));
            }
        } else {
            let single = seq![d.first()];
            let rest = minus_keys(d.drop_first(), u);
            lemma_key_concat(single, rest, k);
            assert(single.first() == d.first());
            assert(single.drop_first() =~= Seq::<(Seq<char>, Doc)>::empty());
            assert(!has_key(Seq::<(Seq<char>, Doc)>::empty(), k));
            assert(has_key(single, k) == (d.first().0 == k));
            if d.first().0 == k {
                assert(lookup(single, k) == d.first().1);
                assert(lookup(d, k) == d.first().1);
            } else {
                assert(lookup(d, k) == lookup(d.drop_first(), k));
            }
        }
    }
}

/// The content of a merged object, key by key: every key of either input is a
/// key of the result; on a key the override has, the override's value wins;
/// on a key only the defaults have, the default value survives.
pub proof fn lemma_merge_object_content(
    de: Seq<(Seq<char>, Doc)>,
    ue: Seq<(Seq<char>, Doc)>,
    k: Seq<char>,
)
    ensures
        has_key(merge_entries(de, ue), k) <==> (has_key(de, k) || has_key(ue, k)),
        has_key(ue, k) ==> lookup(merge_entries(de, ue), k) == lookup(ue, k),
        (has_key(de, k) && !has_key(ue, k)) ==> lookup(merge_entries(de, ue), k) == lookup(
            de,
            k,
        ),
{
    lemma_minus_keys_key(de, ue, k);
    lemma_key_concat(minus_keys(de, ue), ue, k);
}

/// Every entry that survives `minus_keys` is an entry of the defaults.
proof fn lemma_minus_keys_contains(
    d: Seq<(Seq<char>, Doc)>,
    u: Seq<(Seq<char>, Doc)>,
    e: (Seq<char>, Doc),
)
    ensures
        minus_keys(d, u).contains(e) ==> d.contains(e),
    decreases d.len(),
{
    if d.len() != 0 {
        lemma_minus_keys_contains(d.drop_first(), u, e);
        if d.drop_first().contains(e) {
            let j = choose|j: int| 0 <= j < d.drop_first().len() && d.drop_first()[j] == e;
            assert(d[j + 1] == e);
        }
        if !has_key(u, d.first().0) && minus_keys(d, u).contains(e) {
            let s = seq![d.first()] + minus_keys(d.drop_first(), u);
            let i = choose|i: int| 0 <= i < s.len() && s[i] == e;
            if i == 0 {
                assert(d[0] == e);
            } else {
                assert(minus_keys(d.drop_first(), u)[i - 1] == e);
            }
        }
    }
}

/// `minus_keys` keeps the defaults' keys pairwise distinct.
proof fn lemma_minus_keys_unique(d: Seq<(Seq<char>, Doc)>, u: Seq<(Seq<char>, Doc)>)
    requires
        keys_unique(d),
    ensures
        keys_unique(minus_keys(d, u)),
    decreases d.len(),
{
    if d.len() != 0 {
        lemma_minus_keys_unique(d.drop_first(), u);
        if !has_key(u, d.first().0) {
            let rest = minus_keys(d.drop_first(), u);
            lemma_minus_keys_key(d.drop_first(), u, d.first().0);
            let s = seq![d.first()] + rest;
            assert(s.first() == d.first());
            assert(s.drop_first() =~= rest);
        }
    }
}

/// Concatenating uniquely-keyed entry lists with no key in common keeps the
/// keys pairwise distinct.
proof fn lemma_keys_unique_concat(a: Seq<(Seq<char>, Doc)>, b: Seq<(Seq<char>, Doc)>)
    requires
        keys_unique(a),
        keys_unique(b),
        forall|i: int| 0 <= i < a.len() ==> !has_key(b, (#[trigger] a[i]).0),
    ensures
        keys_unique(a + b),
    decreases a.len(),
{
    if a.len() == 0 {
        assert(a + b =~= b);
    } else {
        assert forall|i: int| 0 <= i < a.drop_first().len() implies !has_key(
            b,
            (#[trigger] a.drop_first()[i]).0,
        ) by {
            assert(a.drop_first()[i] == a[i + 1]);
        }
        lemma_keys_unique_concat(a.drop_first(), b);
        assert((a + b).first() == a.first());
        assert((a + b).drop_first() =~= a.drop_first() + b);
        lemma_key_concat(a.drop_first(), b, a.first().0);
        assert(a[0] == a.first());
    }
}

/// Merging uniquely-keyed objects yields a uniquely-keyed object.
proof fn lemma_merge_keys_unique(de: Seq<(Seq<char>, Doc)>, ue: Seq<(Seq<char>, Doc)>)
    requires
        keys_unique(de),
        keys_unique(ue),
    ensures
        keys_unique(merge_entries(de, ue)),
{
    lemma_minus_keys_unique(de, ue);
    let m = minus_keys(de, ue);
    assert forall|i: int| 0 <= i < m.len() implies !has_key(ue, (#[trigger] m[i]).0) by {
        let k = m[i].0;
        lemma_has_key_index(m, k);
        assert(has_key(m, k));
        lemma_minus_keys_key(de, ue, k);
    }
    lemma_keys_unique_concat(m, ue);
}

/// Merging well-formed documents yields a well-formed document: the merged
/// object's keys stay pairwise distinct, and every value in it is a value of
/// one of the inputs.
pub proof fn lemma_merge_wf(d: Doc, u: Doc)
    requires
        wf_doc(d),
        wf_doc(u),
    ensures
        wf_doc(merge_doc(d, u)),
{
    if d is Object && u is Object {
        let de = d->Object_0;
        let ue = u->Object_0;
        lemma_merge_keys_unique(de, ue);
        let m = minus_keys(de, ue);
        assert forall|i: int| 0 <= i < merge_entries(de, ue).len() implies wf_doc(
            (#[trigger] merge_entries(de, ue)[i]).1,
        ) by {
            let e = merge_entries(de, ue)[i];
            if i < m.len() {
                assert(m[i] == e);
                assert(m.contains(e));
                lemma_minus_keys_contains(de, ue, e);
                let j = choose|j: int| 0 <= j < de.len() && de[j] == e;
                assert(wf_doc(de[j].1));
            } else {
                assert(ue[i - m.len()] == e);
                assert(wf_doc(ue[i - m.len()].1));
            }
        }
        assert(merge_doc(d, u) == Doc::Object(merge_entries(de, ue)));
    }
}

/// Merging objects with disjoint key sets concatenates them: every default
/// entry survives unchanged and every override entry is appended.
pub proof fn lemma_merge_disjoint(de: Seq<(Seq<char>, Doc)>, ue: Seq<(Seq<char>, Doc)>)
    requires
        forall|i: int| 0 <= i < de.len() ==> !has_key(ue, #[trigger] de[i].0),
    ensures
        merge_entries(de, ue) == de + ue,
{
    lemma_minus_keys_all_kept(de, ue);
}

} // verus!
