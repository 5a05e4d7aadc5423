//! Path templates: a placeholder `{name}` stands for the value that a call
//! gives under `name`.
use crate::string_map::{pairs_of, Pair};
use crate::text::{component_end, same_text, scan, slice, Boundary};
use vstd::prelude::*;

verus! {

/// The value of the first of `bindings` from index `from` on that is named
/// `name`.
pub open spec fn lookup(bindings: Seq<Pair>, name: Seq<char>, from: int) -> Option<Seq<char>>
    decreases bindings.len() - from,
{
    if from < 0 || from >= bindings.len() {
        None
    } else if bindings[from].0 == name {
        Some(bindings[from].1)
    } else {
        lookup(bindings, name, from + 1)
    }
}

/// The template from index `from` on, with each placeholder that has a value
/// replaced by it. A `{` that no `}` follows, and a placeholder without a
/// value, stay as they are written.
pub open spec fn filled(template: Seq<char>, bindings: Seq<Pair>, from: int) -> Seq<char>
    decreases template.len() - from,
{
    if from < 0 || from >= template.len() {
        Seq::empty()
    } else {
        let close = component_end(template, from + 1, Boundary::Placeholder);
        if template[from] == '{' && from < close < template.len() {
            match lookup(bindings, template.subrange(from + 1, close), 0) {
                Some(value) => value + filled(template, bindings, close + 1),
                None => seq![template[from]] + filled(template, bindings, from + 1),
            }
        } else {
            seq![template[from]] + filled(template, bindings, from + 1)
        }
    }
}

/// The template with its placeholders filled in.
pub open spec fn substituted(template: Seq<char>, bindings: Seq<Pair>) -> Seq<char> {
    filled(template, bindings, 0)
}

/// A template without `{` is its own substitution.
pub proof fn lemma_plain_template(template: Seq<char>, bindings: Seq<Pair>, from: int)
    requires
        0 <= from <= template.len(),
        forall|i: int| from <= i < template.len() ==> template[i] != '{',
    ensures
        filled(template, bindings, from) == template.subrange(from, template.len() as int),
    decreases template.len() - from,
{
    if from < template.len() {
        lemma_plain_template(template, bindings, from + 1);
        assert(seq![template[from]] + template.subrange(from + 1, template.len() as int)
            =~= template.subrange(from, template.len() as int));
    } else {
        assert(template.subrange(from, template.len() as int) =~= Seq::<char>::empty());
    }
}

/// A template that is one placeholder behind a prefix without `{` becomes the
/// prefix followed by the value of the placeholder.
pub proof fn lemma_single_placeholder(
    prefix: Seq<char>,
    name: Seq<char>,
    value: Seq<char>,
    bindings: Seq<Pair>,
)
    requires
        forall|i: int| 0 <= i < prefix.len() ==> prefix[i] != '{',
        forall|i: int| 0 <= i < name.len() ==> name[i] != '}',
        lookup(bindings, name, 0) == Some(value),
    ensures
        substituted(prefix + seq!['{'] + name + seq!['}'], bindings) == prefix + value,
{
    let template = prefix + seq!['{'] + name + seq!['}'];
    let open = prefix.len() as int;
    let close = open + 1 + name.len();
    lemma_closing(template, open + 1, close);
    assert(template.subrange(open + 1, close) =~= name);
    assert(filled(template, bindings, close + 1) =~= Seq::<char>::empty());
    assert(filled(template, bindings, open) =~= value);
    lemma_prefix(template, bindings, 0, open);
    assert(template.subrange(0, open) =~= prefix);
}

/// Scanning for `}` from `from` stops at `close` where `close` holds the
/// first one.
proof fn lemma_closing(template: Seq<char>, from: int, close: int)
    requires
        0 <= from <= close < template.len(),
        template[close] == '}',
        forall|i: int| from <= i < close ==> template[i] != '}',
    ensures
        component_end(template, from, Boundary::Placeholder) == close,
    decreases close - from,
{
    if from < close {
        lemma_closing(template, from + 1, close);
    }
}

/// Characters in front of the first `{` are copied.
proof fn lemma_prefix(template: Seq<char>, bindings: Seq<Pair>, from: int, upto: int)
    requires
        0 <= from <= upto <= template.len(),
        forall|i: int| from <= i < upto ==> template[i] != '{',
    ensures
        filled(template, bindings, from) == template.subrange(from, upto) + filled(
            template,
            bindings,
            upto,
        ),
    decreases upto - from,
{
    if from < upto {
        lemma_prefix(template, bindings, from + 1, upto);
        assert(seq![template[from]] + template.subrange(from + 1, upto) =~= template.subrange(
            from,
            upto,
        ));
        assert(filled(template, bindings, from) =~= template.subrange(from, upto) + filled(
            template,
            bindings,
            upto,
        ));
    } else {
        assert(template.subrange(from, upto) =~= Seq::<char>::empty());
        assert(Seq::<char>::empty() + filled(template, bindings, upto) =~= filled(
            template,
            bindings,
            upto,
        ));
    }
}

/// The value that `bindings` give under `name`: that of the first pair so
/// named.
pub fn find(bindings: &Vec<(String, String)>, name: &str) -> (r: Option<usize>)
    ensures
        match r {
            Some(i) => i < bindings@.len() && lookup(pairs_of(bindings@), name@, 0) == Some(
                bindings@[i as int].1@,
            ),
            None => lookup(pairs_of(bindings@), name@, 0) is None,
        },
{
    let mut i: usize = 0;
    while i < bindings.len()
        invariant
            i <= bindings@.len(),
            lookup(pairs_of(bindings@), name@, 0) == lookup(pairs_of(bindings@), name@, i as int),
        decreases bindings@.len() - i,
    {
        if same_text(bindings[i].0.as_str(), name) {
            return Some(i);
        }
        i = i + 1;
    }
    None
}

/// Fills the placeholders of `template` with the values of `bindings`.
pub fn substitute(template: &str, bindings: &Vec<(String, String)>) -> (r: String)
    ensures
        r@ == substituted(template@, pairs_of(bindings@)),
{
    let n: usize = template.unicode_len();
    let mut out = String::new();
    let mut i: usize = 0;
    assert(out@ + filled(template@, pairs_of(bindings@), 0) =~= filled(
        template@,
        pairs_of(bindings@),
        0,
    ));
    while i < n
        invariant
            n == template@.len(),
            i <= n,
            out@ + filled(template@, pairs_of(bindings@), i as int) == substituted(
                template@,
                pairs_of(bindings@),
            ),
        decreases n - i,
    {
        let ghost before = out@;
        let ghost rest = filled(template@, pairs_of(bindings@), i as int);
        let mut next: usize = i + 1;
        let mut copied = false;
        if template.get_char(i) == '{' {
            let close: usize = scan(template, i + 1, Boundary::Placeholder);
            if close < n {
                let name = slice(template, i + 1, close);
                match find(bindings, name.as_str()) {
                    Some(at) => {
                        out.append(bindings[at].1.as_str());
                        next = close + 1;
                        copied = true;
                        assert(out@ + filled(template@, pairs_of(bindings@), next as int)
                            =~= before + rest);
                    },
                    None => {},
                }
            }
        }
        if !copied {
            let one = slice(template, i, i + 1);
            out.append(one.as_str());
            assert(one@ =~= seq![template@[i as int]]);
            assert(out@ + filled(template@, pairs_of(bindings@), next as int) =~= before + rest);
        }
        i = next;
    }
    assert(out@ + Seq::<char>::empty() =~= out@);
    out
}

} // verus!
