//! The argument accumulator and the textual forms shared by every option.

use vstd::prelude::*;
use vstd::seq_lib::lemma_flatten_concat;
use vstd::string::StringExecFns;

verus! {

/// An ordered list of command-line tokens.
pub struct ArgList {
    items: Vec<String>,
}

impl View for ArgList {
    type V = Seq<Seq<char>>;

    closed spec fn view(&self) -> Seq<Seq<char>> {
        self.items@.map_values(|s: String| s@)
    }
}

impl ArgList {
    /// An empty list.
    pub fn new() -> (r: ArgList)
        ensures
            r@ == Seq::<Seq<char>>::empty(),
    {
        let r = ArgList { items: Vec::new() };
        assert(r@ =~= Seq::<Seq<char>>::empty());
        r
    }

    /// Appends one token.
    pub fn push(&mut self, token: String)
        ensures
            final(self)@ == old(self)@.push(token@),
    {
        self.items.push(token);
        assert(self@ =~= old(self)@.push(token@));
    }

    /// Appends one token copied from `token`.
    pub fn push_str(&mut self, token: &str)
        ensures
            final(self)@ == old(self)@.push(token@),
    {
        self.push(String::from_str(token));
    }

    /// The number of tokens.
    pub fn len(&self) -> (r: usize)
        ensures
            r == self@.len(),
    {
        self.items.len()
    }

    /// The token at `index`.
    pub fn get(&self, index: usize) -> (r: &String)
        requires
            index < self@.len(),
        ensures
            r@ == self@[index as int],
    {
        &self.items[index]
    }

    /// The tokens, in order.
    pub fn into_vec(self) -> (r: Vec<String>)
        ensures
            r@.map_values(|s: String| s@) == self@,
    {
        self.items
    }
}

/// The character of a decimal digit.
pub open spec fn digit_char(d: nat) -> char {
    if d == 0 { '0' }
    else if d == 1 { '1' }
    else if d == 2 { '2' }
    else if d == 3 { '3' }
    else if d == 4 { '4' }
    else if d == 5 { '5' }
    else if d == 6 { '6' }
    else if d == 7 { '7' }
    else if d == 8 { '8' }
    else { '9' }
}

/// The decimal text of `n`, most significant digit first, without leading zeros.
pub open spec fn decimal(n: nat) -> Seq<char>
    decreases n,
{
    if n < 10 {
        seq![digit_char(n)]
    } else {
        decimal(n / 10).push(digit_char(n % 10))
    }
}

fn digit_str(d: u64) -> (r: &'static str)
    requires
        d < 10,
    ensures
        r@ == seq![digit_char(d as nat)],
{
    if d == 0 {
        proof { reveal_strlit("0"); }
        "0"
    } else if d == 1 {
        proof { reveal_strlit("1"); }
        "1"
    } else if d == 2 {
        proof { reveal_strlit("2"); }
        "2"
    } else if d == 3 {
        proof { reveal_strlit("3"); }
        "3"
    } else if d == 4 {
        proof { reveal_strlit("4"); }
        "4"
    } else if d == 5 {
        proof { reveal_strlit("5"); }
        "5"
    } else if d == 6 {
        proof { reveal_strlit("6"); }
        "6"
    } else if d == 7 {
        proof { reveal_strlit("7"); }
        "7"
    } else if d == 8 {
        proof { reveal_strlit("8"); }
        "8"
    } else {
        proof { reveal_strlit("9"); }
        "9"
    }
}

/// Writes `n` in decimal, as `Display` does for unsigned integers.
pub fn decimal_string(n: u64) -> (r: String)
    ensures
        r@ == decimal(n as nat),
    decreases n,
{
    if n < 10 {
        String::from_str(digit_str(n))
    } else {
        let mut s = decimal_string(n / 10);
        s.append(digit_str(n % 10));
        s
    }
}

/// A value that an option renders as a single token.
pub trait ArgValue {
    /// The token.
    spec fn text(&self) -> Seq<char>;

    /// Renders the token.
    fn to_arg(&self) -> (r: String)
        ensures
            r@ == self.text(),
    ;
}

impl ArgValue for u8 {
    open spec fn text(&self) -> Seq<char> {
        decimal(*self as nat)
    }

    fn to_arg(&self) -> (r: String) {
        decimal_string(*self as u64)
    }
}

impl ArgValue for u16 {
    open spec fn text(&self) -> Seq<char> {
        decimal(*self as nat)
    }

    fn to_arg(&self) -> (r: String) {
        decimal_string(*self as u64)
    }
}

impl ArgValue for u32 {
    open spec fn text(&self) -> Seq<char> {
        decimal(*self as nat)
    }

    fn to_arg(&self) -> (r: String) {
        decimal_string(*self as u64)
    }
}

/// The tokens of a presence-only flag: the flag when set, nothing otherwise.
pub open spec fn flag_run(on: bool, flag: Seq<char>) -> Seq<Seq<char>> {
    if on {
        seq![flag]
    } else {
        seq![]
    }
}

/// The tokens of an optional valued option: the flag and the value's token
/// when present, nothing otherwise.
pub open spec fn named_run<T: ArgValue>(flag: Seq<char>, value: Option<T>) -> Seq<Seq<char>> {
    match value {
        Some(v) => seq![flag, v.text()],
        None => seq![],
    }
}

/// Appends a presence-only flag.
pub fn add_flag(args: &mut ArgList, on: bool, flag: &str)
    ensures
        final(args)@ == old(args)@ + flag_run(on, flag@),
{
    if on {
        args.push_str(flag);
    }
    assert(args@ =~= old(args)@ + flag_run(on, flag@));
}

/// Appends an optional valued option.
pub fn add_named<T: ArgValue>(args: &mut ArgList, flag: &str, value: &Option<T>)
    ensures
        final(args)@ == old(args)@ + named_run(flag@, *value),
{
    match value {
        Some(v) => {
            args.push_str(flag);
            args.push(v.to_arg());
        },
        None => {},
    }
    assert(args@ =~= old(args)@ + named_run(flag@, *value));
}

/// Appending one more run to a list that holds `base` followed by the runs
/// `done` gives `base` followed by `done` and that run.
pub proof fn lemma_push_run(
    base: Seq<Seq<char>>,
    done: Seq<Seq<Seq<char>>>,
    before: Seq<Seq<char>>,
    run: Seq<Seq<char>>,
    after: Seq<Seq<char>>,
)
    requires
        before == base + done.flatten(),
        after == before + run,
    ensures
        after == base + done.push(run).flatten(),
{
    done.lemma_flatten_push(run);
    assert(after =~= base + done.push(run).flatten());
}

/// A list that holds `base` holds `base` followed by no runs.
pub proof fn lemma_no_runs(base: Seq<Seq<char>>)
    ensures
        base == base + Seq::<Seq<Seq<char>>>::empty().flatten(),
{
    assert(base =~= base + Seq::<Seq<Seq<char>>>::empty().flatten());
}

/// A presence-only flag left unset contributes no token; set, it
/// contributes exactly the flag.
pub proof fn lemma_flag_omission(flag: Seq<char>)
    ensures
        flag_run(false, flag).len() == 0,
        flag_run(true, flag) == seq![flag],
{
}

/// The concatenation of runs is the runs before `k`, then run `k`, then the
/// runs after it.
pub proof fn lemma_flatten_split(runs: Seq<Seq<Seq<char>>>, k: int)
    requires
        0 <= k < runs.len(),
    ensures
        runs.flatten() == runs.take(k).flatten() + runs[k] + runs.skip(k + 1).flatten(),
{
    let pre = runs.take(k);
    let post = runs.skip(k + 1);
    assert(runs =~= pre.push(runs[k]) + post);
    lemma_flatten_concat(pre.push(runs[k]), post);
    pre.lemma_flatten_push(runs[k]);
}

/// When two sequences of runs differ at most in run `k`, their
/// concatenations share what comes before and after that run: changing one
/// option's value never moves the tokens of the others.
pub proof fn lemma_change_one_run(a: Seq<Seq<Seq<char>>>, b: Seq<Seq<Seq<char>>>, k: int)
    requires
        a.len() == b.len(),
        0 <= k < a.len(),
        forall|i: int| 0 <= i < a.len() && i != k ==> a[i] == b[i],
    ensures
        a.flatten() == a.take(k).flatten() + a[k] + a.skip(k + 1).flatten(),
        b.flatten() == a.take(k).flatten() + b[k] + a.skip(k + 1).flatten(),
{
    lemma_flatten_split(a, k);
    lemma_flatten_split(b, k);
    assert(a.take(k) =~= b.take(k));
    assert(a.skip(k + 1) =~= b.skip(k + 1));
}

} // verus!
