//! Reading a command line. After the subcommand, each argument is a long
//! option (`--name value`, `--name=value`, or a bare `--flag`) or a
//! positional argument; `--` makes every later argument positional. Short
//! options are not accepted.
use vstd::prelude::*;

use crate::text::{chars_eq, chars_of, chars_of_string};

verus! {

/// An argument as read: whether it is a long option, its name (for a
/// positional argument, its text), and the value given with it.
pub open spec fn item_view(x: (bool, Vec<char>, Option<Vec<char>>)) -> (
    bool,
    Seq<char>,
    Option<Seq<char>>,
) {
    (
        x.0,
        x.1@,
        match x.2 {
            Some(v) => Some(v@),
            None => None,
        },
    )
}

/// The views of read arguments.
pub open spec fn items_view(v: Seq<(bool, Vec<char>, Option<Vec<char>>)>) -> Seq<
    (bool, Seq<char>, Option<Seq<char>>),
> {
    v.map_values(|x: (bool, Vec<char>, Option<Vec<char>>)| item_view(x))
}

/// An argument that starts with `--`.
pub open spec fn is_long(t: Seq<char>) -> bool {
    t.len() >= 2 && t[0] == '-' && t[1] == '-'
}

/// An argument that starts with `-` and is more than the `-` alone.
pub open spec fn looks_like_option(t: Seq<char>) -> bool {
    t.len() > 1 && t[0] == '-'
}

/// The position of the first `=` in `s`.
pub open spec fn index_of_eq(s: Seq<char>) -> Option<nat>
    decreases s.len(),
{
    if s.len() == 0 {
        None
    } else if s[0] == '=' {
        Some(0)
    } else {
        match index_of_eq(s.drop_first()) {
            Some(k) => Some(k + 1),
            None => None,
        }
    }
}

/// The subcommands, each with the options it accepts.
#[derive(Clone, Copy)]
pub enum Sub {
    Scan,
    Serve,
    Export,
    TasksList,
    TasksCancel,
    TasksCleanup,
}

/// The options of a subcommand that take a value.
pub open spec fn is_value_option(sub: Sub, name: Seq<char>) -> bool {
    match sub {
        Sub::Scan => name == "source"@ || name == "output"@ || name == "dir"@ || name
            == "include"@ || name == "exclude"@,
        Sub::Serve => name == "transport"@ || name == "host"@ || name == "port"@ || name
            == "jwt-secret"@ || name == "approval"@ || name == "tags"@ || name == "prefix"@,
        Sub::Export => name == "format"@ || name == "tags"@ || name == "prefix"@,
        Sub::TasksList => name == "status"@,
        Sub::TasksCancel => false,
        Sub::TasksCleanup => name == "max-age"@,
    }
}

/// The options of a subcommand that take no value.
pub open spec fn is_flag_option(sub: Sub, name: Seq<char>) -> bool {
    match sub {
        Sub::Scan => name == "dry-run"@ || name == "verify"@,
        Sub::Serve => name == "explorer"@,
        Sub::Export => name == "strict"@ || name == "embed-annotations"@,
        _ => false,
    }
}

/// How many positional arguments a subcommand takes.
pub open spec fn positional_count(sub: Sub) -> nat {
    match sub {
        Sub::TasksCancel => 1,
        _ => 0,
    }
}

/// `items` in front of what `rest` holds, when it holds anything.
pub open spec fn prepend(
    items: Seq<(bool, Seq<char>, Option<Seq<char>>)>,
    rest: Option<Seq<(bool, Seq<char>, Option<Seq<char>>)>>,
) -> Option<Seq<(bool, Seq<char>, Option<Seq<char>>)>> {
    match rest {
        Some(r) => Some(items + r),
        None => None,
    }
}

/// Arguments taken as positional, one item each.
pub open spec fn as_positionals(tokens: Seq<Seq<char>>) -> Seq<(bool, Seq<char>, Option<Seq<char>>)> {
    tokens.map_values(|t: Seq<char>| (false, t, None::<Seq<char>>))
}

/// The arguments of `tokens` from position `i` on, read for `sub`; `None`
/// when one cannot be read: a short option, or an option that takes a value
/// with no value after it.
pub open spec fn read_from(tokens: Seq<Seq<char>>, sub: Sub, i: int) -> Option<
    Seq<(bool, Seq<char>, Option<Seq<char>>)>,
>
    decreases tokens.len() - i,
{
    if i < 0 || i >= tokens.len() {
        Some(Seq::empty())
    } else {
        let t = tokens[i];
        if t == "--"@ {
            Some(as_positionals(tokens.subrange(i + 1, tokens.len() as int)))
        } else if is_long(t) {
            let body = t.subrange(2, t.len() as int);
            match index_of_eq(body) {
                Some(k) => prepend(
                    seq![(true, body.take(k as int), Some(body.skip(k + 1 as int)))],
                    read_from(tokens, sub, i + 1),
                ),
                None => if is_value_option(sub, body) {
                    if i + 1 < tokens.len() && !looks_like_option(tokens[i + 1]) {
                        prepend(
                            seq![(true, body, Some(tokens[i + 1]))],
                            read_from(tokens, sub, i + 2),
                        )
                    } else {
                        None
                    }
                } else {
                    prepend(seq![(true, body, None::<Seq<char>>)], read_from(tokens, sub, i + 1))
                },
            }
        } else if looks_like_option(t) {
            None
        } else {
            prepend(seq![(false, t, None::<Seq<char>>)], read_from(tokens, sub, i + 1))
        }
    }
}

/// The positional arguments among `items`, in order.
pub open spec fn positionals(items: Seq<(bool, Seq<char>, Option<Seq<char>>)>) -> Seq<Seq<char>>
    decreases items.len(),
{
    if items.len() == 0 {
        Seq::empty()
    } else if items.last().0 {
        positionals(items.drop_last())
    } else {
        positionals(items.drop_last()).push(items.last().1)
    }
}

/// Read arguments that a subcommand accepts: each option is one of its
/// options, with a value exactly when it takes one; no option is given
/// twice; and the number of positional arguments is the one it takes.
pub open spec fn items_ok(sub: Sub, items: Seq<(bool, Seq<char>, Option<Seq<char>>)>) -> bool {
    &&& forall|i: int|
        0 <= i < items.len() && (#[trigger] items[i]).0 ==> (is_value_option(sub, items[i].1)
            && items[i].2 is Some) || (is_flag_option(sub, items[i].1) && items[i].2 is None)
    &&& forall|i: int, j: int|
        0 <= i < j < items.len() && (#[trigger] items[i]).0 && (#[trigger] items[j]).0 ==> items[i].1
            != items[j].1
    &&& positionals(items).len() == positional_count(sub)
}

/// The value of option `name` among `items`, when it is given.
pub open spec fn option_value(items: Seq<(bool, Seq<char>, Option<Seq<char>>)>, name: Seq<char>) -> Option<
    Seq<char>,
>
    decreases items.len(),
{
    if items.len() == 0 {
        None
    } else if items[0].0 && items[0].1 == name {
        items[0].2
    } else {
        option_value(items.drop_first(), name)
    }
}

/// Whether option `name` is among `items`.
pub open spec fn option_given(items: Seq<(bool, Seq<char>, Option<Seq<char>>)>, name: Seq<char>) -> bool {
    exists|i: int| 0 <= i < items.len() && (#[trigger] items[i]).0 && items[i].1 == name
}

proof fn lemma_prepend_assoc(
    a: Seq<(bool, Seq<char>, Option<Seq<char>>)>,
    b: Seq<(bool, Seq<char>, Option<Seq<char>>)>,
    r: Option<Seq<(bool, Seq<char>, Option<Seq<char>>)>>,
)
    ensures
        prepend(a, prepend(b, r)) == prepend(a + b, r),
{
    if let Some(x) = r {
        assert(a + (b + x) =~= (a + b) + x);
    }
}

fn chars_range(s: &Vec<char>, start: usize, end: usize) -> (r: Vec<char>)
    requires
        start <= end <= s.len(),
    ensures
        r@ == s@.subrange(start as int, end as int),
{
    let mut r: Vec<char> = Vec::new();
    let mut k: usize = start;
    while k < end
        invariant
            start <= k <= end <= s.len(),
            r@ == s@.subrange(start as int, k as int),
        decreases end - k,
    {
        r.push(s[k]);
        assert(s@.subrange(start as int, k + 1) == s@.subrange(start as int, k as int).push(
            s@[k as int],
        ));
        k = k + 1;
    }
    r
}

proof fn lemma_index_of_eq(s: Seq<char>, k: int)
    requires
        0 <= k <= s.len(),
        forall|j: int| 0 <= j < k ==> s[j] != '=',
    ensures
        k < s.len() && s[k] == '=' ==> index_of_eq(s) == Some(k as nat),
        k == s.len() ==> index_of_eq(s) is None,
    decreases k,
{
    if k > 0 {
        assert forall|j: int| 0 <= j < k - 1 implies s.drop_first()[j] != '=' by {
            assert(s.drop_first()[j] == s[j + 1]);
        }
        lemma_index_of_eq(s.drop_first(), k - 1);
        assert(s[0] != '=');
    }
}

fn find_eq(s: &Vec<char>) -> (r: Option<usize>)
    ensures
        match r {
            Some(k) => index_of_eq(s@) == Some(k as nat) && k < s.len(),
            None => index_of_eq(s@) is None,
        },
{
    let mut i: usize = 0;
    while i < s.len()
        invariant
            i <= s.len(),
            forall|j: int| 0 <= j < i ==> s@[j] != '=',
        decreases s.len() - i,
    {
        if s[i] == '=' {
            proof {
                lemma_index_of_eq(s@, i as int);
            }
            return Some(i);
        }
        i = i + 1;
    }
    proof {
        lemma_index_of_eq(s@, i as int);
    }
    None
}

fn name_is(name: &Vec<char>, word: &str) -> (b: bool)
    ensures
        b == (name@ == word@),
{
    let w = chars_of(word);
    chars_eq(name, &w)
}

/// Whether `name` is an option of `sub` that takes a value.
pub fn takes_value(sub: Sub, name: &Vec<char>) -> (b: bool)
    ensures
        b == is_value_option(sub, name@),
{
    match sub {
        Sub::Scan => name_is(name, "source") || name_is(name, "output") || name_is(name, "dir")
            || name_is(name, "include") || name_is(name, "exclude"),
        Sub::Serve => name_is(name, "transport") || name_is(name, "host") || name_is(name, "port")
            || name_is(name, "jwt-secret") || name_is(name, "approval") || name_is(name, "tags")
            || name_is(name, "prefix"),
        Sub::Export => name_is(name, "format") || name_is(name, "tags") || name_is(name, "prefix"),
        Sub::TasksList => name_is(name, "status"),
        Sub::TasksCancel => false,
        Sub::TasksCleanup => name_is(name, "max-age"),
    }
}

/// Whether `name` is an option of `sub` that takes no value.
pub fn is_flag(sub: Sub, name: &Vec<char>) -> (b: bool)
    ensures
        b == is_flag_option(sub, name@),
{
    match sub {
        Sub::Scan => name_is(name, "dry-run") || name_is(name, "verify"),
        Sub::Serve => name_is(name, "explorer"),
        Sub::Export => name_is(name, "strict") || name_is(name, "embed-annotations"),
        _ => false,
    }
}

/// Reads the arguments of `tokens` from position `start` on for `sub`;
/// `None` when one of them cannot be read.
pub fn read_args(tokens: &Vec<String>, sub: Sub, start: usize) -> (r: Option<
    Vec<(bool, Vec<char>, Option<Vec<char>>)>,
>)
    requires
        start <= tokens.len(),
    ensures
        match r {
            Some(items) => read_from(tokens@.map_values(|t: String| t@), sub, start as int) == Some(
                items_view(items@),
            ),
            None => read_from(tokens@.map_values(|t: String| t@), sub, start as int) is None,
        },
{
    let ghost toks = tokens@.map_values(|t: String| t@);
    let mut items: Vec<(bool, Vec<char>, Option<Vec<char>>)> = Vec::new();
    let mut i: usize = start;
    while i < tokens.len()
        invariant
            start <= i <= tokens.len(),
            toks == tokens@.map_values(|t: String| t@),
            read_from(toks, sub, start as int) == prepend(
                items_view(items@),
                read_from(toks, sub, i as int),
            ),
        decreases tokens.len() - i,
    {
        let t = chars_of_string(&tokens[i]);
        assert(toks[i as int] == t@);
        let ghost at = i as int;
        let ghost before = items_view(items@);
        let dashes = chars_of("--");
        if chars_eq(&t, &dashes) {
            let mut j: usize = i + 1;
            while j < tokens.len()
                invariant
                    i < j <= tokens.len(),
                    toks == tokens@.map_values(|t: String| t@),
                    items_view(items@) == before + as_positionals(
                        toks.subrange(i + 1, j as int),
                    ),
                decreases tokens.len() - j,
            {
                let p = chars_of_string(&tokens[j]);
                assert(toks[j as int] == p@);
                let ghost mid = items@;
                items.push((false, p, None));
                assert(items_view(items@) =~= items_view(mid).push(item_view((false, p, None))));
                assert(toks.subrange(i + 1, j + 1) =~= toks.subrange(i + 1, j as int).push(
                    toks[j as int],
                ));
                assert(as_positionals(toks.subrange(i + 1, j + 1)) =~= as_positionals(
                    toks.subrange(i + 1, j as int),
                ).push((false, p@, None::<Seq<char>>)));
                assert(items_view(items@) =~= before + as_positionals(
                    toks.subrange(i + 1, j + 1),
                ));
                j = j + 1;
            }
            assert(read_from(toks, sub, tokens.len() as int) == Some(
                Seq::<(bool, Seq<char>, Option<Seq<char>>)>::empty(),
            ));
            assert(items_view(items@) + Seq::<(bool, Seq<char>, Option<Seq<char>>)>::empty()
                =~= items_view(items@));
            return Some(items);
        }
        let long = t.len() >= 2 && t[0] == '-' && t[1] == '-';
        if long {
            let body = chars_range(&t, 2, t.len());
            match find_eq(&body) {
                Some(k) => {
                    let name = chars_range(&body, 0, k);
                    let value = chars_range(&body, k + 1, body.len());
                    assert(name@ =~= body@.take(k as int));
                    assert(value@ =~= body@.skip(k + 1 as int));
                    items.push((true, name, Some(value)));
                    i = i + 1;
                },
                None => {
                    if takes_value(sub, &body) {
                        if i + 1 < tokens.len() {
                            let v = chars_of_string(&tokens[i + 1]);
                            assert(toks[i + 1] == v@);
                            if v.len() > 1 && v[0] == '-' {
                                return None;
                            }
                            items.push((true, body, Some(v)));
                            i = i + 2;
                        } else {
                            return None;
                        }
                    } else {
                        items.push((true, body, None));
                        i = i + 1;
                    }
                },
            }
        } else if t.len() > 1 && t[0] == '-' {
            return None;
        } else {
            items.push((false, t, None));
            i = i + 1;
        }
        proof {
            assert(items_view(items@) =~= before + seq![items_view(items@).last()]);
            lemma_prepend_assoc(
                before,
                seq![items_view(items@).last()],
                read_from(toks, sub, i as int),
            );
        }
    }
    assert(read_from(toks, sub, i as int) == Some(
        Seq::<(bool, Seq<char>, Option<Seq<char>>)>::empty(),
    ));
    assert(items_view(items@) + Seq::<(bool, Seq<char>, Option<Seq<char>>)>::empty() =~= items_view(
        items@,
    ));
    Some(items)
}

/// Whether read arguments are ones `sub` accepts (`items_ok`).
pub fn check_items(sub: Sub, items: &Vec<(bool, Vec<char>, Option<Vec<char>>)>) -> (b: bool)
    ensures
        b == items_ok(sub, items_view(items@)),
{
    let ghost iv = items_view(items@);
    let mut i: usize = 0;
    while i < items.len()
        invariant
            i <= items.len(),
            iv == items_view(items@),
            forall|k: int|
                0 <= k < i && (#[trigger] iv[k]).0 ==> (is_value_option(sub, iv[k].1)
                    && iv[k].2 is Some) || (is_flag_option(sub, iv[k].1) && iv[k].2 is None),
            forall|k1: int, k2: int|
                0 <= k1 < k2 < i && (#[trigger] iv[k1]).0 && (#[trigger] iv[k2]).0 ==> iv[k1].1
                    != iv[k2].1,
        decreases items.len() - i,
    {
        assert(iv[i as int] == item_view(items@[i as int]));
        if items[i].0 {
            let fits = match &items[i].2 {
                Some(_) => takes_value(sub, &items[i].1),
                None => is_flag(sub, &items[i].1),
            };
            if !fits {
                return false;
            }
            let mut j: usize = 0;
            while j < i
                invariant
                    j <= i < items.len(),
                    iv == items_view(items@),
                    iv[i as int].0,
                    forall|k: int| 0 <= k < j && (#[trigger] iv[k]).0 ==> iv[k].1 != iv[i as int].1,
                decreases i - j,
            {
                assert(iv[j as int] == item_view(items@[j as int]));
                if items[j].0 && chars_eq(&items[j].1, &items[i].1) {
                    return false;
                }
                j = j + 1;
            }
        }
        i = i + 1;
    }
    let ps = positional_args(items);
    ps.len() == positional_count_of(sub)
}

fn positional_count_of(sub: Sub) -> (n: usize)
    ensures
        n == positional_count(sub),
{
    match sub {
        Sub::TasksCancel => 1,
        _ => 0,
    }
}

/// The positional arguments among read arguments, in order.
pub fn positional_args(items: &Vec<(bool, Vec<char>, Option<Vec<char>>)>) -> (r: Vec<Vec<char>>)
    ensures
        r@.map_values(|v: Vec<char>| v@) == positionals(items_view(items@)),
{
    let ghost iv = items_view(items@);
    let mut r: Vec<Vec<char>> = Vec::new();
    let mut i: usize = 0;
    while i < items.len()
        invariant
            i <= items.len(),
            iv == items_view(items@),
            r@.map_values(|v: Vec<char>| v@) == positionals(iv.take(i as int)),
        decreases items.len() - i,
    {
        assert(iv.take(i + 1).drop_last() =~= iv.take(i as int));
        assert(iv[i as int] == item_view(items@[i as int]));
        if !items[i].0 {
            let ghost before = r@;
            r.push(items[i].1.clone());
            assert(r@.map_values(|v: Vec<char>| v@) =~= before.map_values(|v: Vec<char>| v@).push(
                items@[i as int].1@,
            ));
        }
        i = i + 1;
    }
    assert(iv.take(items.len() as int) =~= iv);
    r
}

proof fn lemma_option_value_skip(
    items: Seq<(bool, Seq<char>, Option<Seq<char>>)>,
    name: Seq<char>,
    i: int,
)
    requires
        0 <= i <= items.len(),
        forall|j: int| 0 <= j < i ==> !((#[trigger] items[j]).0 && items[j].1 == name),
    ensures
        option_value(items, name) == option_value(items.skip(i), name),
    decreases i,
{
    if i > 0 {
        assert(items.drop_first().skip(i - 1) =~= items.skip(i));
        assert forall|j: int| 0 <= j < i - 1 implies !((#[trigger] items.drop_first()[j]).0
            && items.drop_first()[j].1 == name) by {
            assert(items.drop_first()[j] == items[j + 1]);
        }
        lemma_option_value_skip(items.drop_first(), name, i - 1);
    } else {
        assert(items.skip(0) =~= items);
    }
}

/// The value of option `name` among read arguments (`option_value`).
pub fn value_of(items: &Vec<(bool, Vec<char>, Option<Vec<char>>)>, name: &str) -> (r: Option<
    Vec<char>,
>)
    ensures
        match r {
            Some(v) => option_value(items_view(items@), name@) == Some(v@),
            None => option_value(items_view(items@), name@) is None,
        },
{
    let ghost iv = items_view(items@);
    let n = chars_of(name);
    let mut i: usize = 0;
    while i < items.len()
        invariant
            i <= items.len(),
            iv == items_view(items@),
            n@ == name@,
            forall|j: int| 0 <= j < i ==> !((#[trigger] iv[j]).0 && iv[j].1 == name@),
        decreases items.len() - i,
    {
        assert(iv[i as int] == item_view(items@[i as int]));
        if items[i].0 && chars_eq(&items[i].1, &n) {
            proof {
                lemma_option_value_skip(iv, name@, i as int);
                assert(iv.skip(i as int)[0] == iv[i as int]);
            }
            return match &items[i].2 {
                Some(v) => Some(v.clone()),
                None => None,
            };
        }
        i = i + 1;
    }
    proof {
        lemma_option_value_skip(iv, name@, i as int);
    }
    None
}

/// Whether option `name` is among read arguments (`option_given`).
pub fn given(items: &Vec<(bool, Vec<char>, Option<Vec<char>>)>, name: &str) -> (b: bool)
    ensures
        b == option_given(items_view(items@), name@),
{
    let ghost iv = items_view(items@);
    let n = chars_of(name);
    let mut i: usize = 0;
    while i < items.len()
        invariant
            i <= items.len(),
            iv == items_view(items@),
            n@ == name@,
            forall|j: int| 0 <= j < i ==> !((#[trigger] iv[j]).0 && iv[j].1 == name@),
        decreases items.len() - i,
    {
        assert(iv[i as int] == item_view(items@[i as int]));
        if items[i].0 && chars_eq(&items[i].1, &n) {
            return true;
        }
        i = i + 1;
    }
    false
}

} // verus!
