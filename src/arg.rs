//! A typestate builder for one command-line argument: a flag, optionally a
//! value, optionally a spacer that glues flag and value into one token.
use std::marker::PhantomData;
use vstd::prelude::*;

verus! {

/// Texts that can become a flag, a value or a spacer.
pub trait ArgText {
    spec fn text(&self) -> Seq<char>;

    fn into_text(self) -> (r: String)
        ensures
            r@ == self.text(),
    ;
}

impl<'a> ArgText for &'a str {
    open spec fn text(&self) -> Seq<char> {
        (*self)@
    }

    fn into_text(self) -> (r: String) {
        self.to_owned()
    }
}

impl ArgText for String {
    open spec fn text(&self) -> Seq<char> {
        self@
    }

    fn into_text(self) -> (r: String) {
        self
    }
}

pub struct Arg<F, V, S> {
    flag: String,
    without_dash: bool,
    double_dash: bool,
    value_double_quote: bool,
    value: Option<String>,
    value_spacer: Option<String>,
    flag_shadow: PhantomData<F>,
    value_shadow: PhantomData<V>,
    spacer_shadow: PhantomData<S>,
}

pub struct NoFlag;

pub struct WithValue;

pub struct WithFlag;

pub struct NoValue;

pub struct WithSpacer;

pub struct NoSpacer;

/// Mathematical view of an [`Arg`]; an absent value or spacer reads as empty.
pub struct ArgView {
    pub flag: Seq<char>,
    pub without_dash: bool,
    pub double_dash: bool,
    pub value_double_quote: bool,
    pub value: Seq<char>,
    pub value_spacer: Seq<char>,
}

pub open spec fn text_or_empty(o: Option<String>) -> Seq<char> {
    match o {
        Some(s) => s@,
        None => Seq::empty(),
    }
}

impl<F, V, S> View for Arg<F, V, S> {
    type V = ArgView;

    closed spec fn view(&self) -> ArgView {
        ArgView {
            flag: self.flag@,
            without_dash: self.without_dash,
            double_dash: self.double_dash,
            value_double_quote: self.value_double_quote,
            value: text_or_empty(self.value),
            value_spacer: text_or_empty(self.value_spacer),
        }
    }
}

/// The texts of a list of strings.
pub open spec fn texts(v: Seq<String>) -> Seq<Seq<char>> {
    v.map_values(|s: String| s@)
}

/// The concatenation of a list of texts, in order.
pub open spec fn join_texts(v: Seq<Seq<char>>) -> Seq<char>
    decreases v.len(),
{
    if v.len() == 0 {
        Seq::empty()
    } else {
        join_texts(v.drop_last()) + v.last()
    }
}

/// The flag as it is written: bare, or after one or two dashes.
pub open spec fn dashed_flag(a: ArgView) -> Seq<char> {
    if a.without_dash {
        a.flag
    } else if a.double_dash {
        "--"@ + a.flag
    } else {
        "-"@ + a.flag
    }
}

/// The one token of a spaced argument: flag, spacer and value, in double
/// quotes when asked for.
pub open spec fn spaced_token(a: ArgView) -> Seq<char> {
    let joined = dashed_flag(a) + a.value_spacer + a.value;
    if a.value_double_quote {
        "\""@ + joined + "\""@
    } else {
        joined
    }
}

/// Concatenates `parts` in order, as `join("")` does.
pub fn join_all(parts: &Vec<String>) -> (r: String)
    ensures
        r@ == join_texts(texts(parts@)),
{
    let mut out = String::new();
    let mut i: usize = 0;
    while i < parts.len()
        invariant
            i <= parts.len(),
            out@ == join_texts(texts(parts@.subrange(0, i as int))),
        decreases parts.len() - i,
    {
        proof {
            let next = texts(parts@.subrange(0, i + 1));
            assert(next.drop_last() =~= texts(parts@.subrange(0, i as int)));
            assert(next.last() == parts@[i as int]@);
        }
        out.append(parts[i].as_str());
        i = i + 1;
    }
    assert(parts@.subrange(0, parts@.len() as int) =~= parts@);
    out
}

fn prefixed(prefix: &str, body: &String) -> (r: String)
    ensures
        r@ == prefix@ + body@,
{
    let mut s = prefix.to_owned();
    s.append(body.as_str());
    s
}

fn dashed<F, V, S>(a: &Arg<F, V, S>) -> (r: String)
    ensures
        r@ == dashed_flag(a@),
{
    if a.without_dash {
        a.flag.clone()
    } else if a.double_dash {
        prefixed("--", &a.flag)
    } else {
        prefixed("-", &a.flag)
    }
}

fn text_of(o: &Option<String>) -> (r: String)
    ensures
        r@ == text_or_empty(*o),
{
    match o {
        Some(s) => s.clone(),
        None => String::new(),
    }
}

impl Arg<NoFlag, NoValue, NoSpacer> {
    pub fn new<T: ArgText>(flag: T) -> (r: Arg<WithFlag, NoValue, NoSpacer>)
        ensures
            r@ == (ArgView {
                flag: flag.text(),
                without_dash: false,
                double_dash: false,
                value_double_quote: false,
                value: Seq::empty(),
                value_spacer: Seq::empty(),
            }),
    {
        Arg {
            flag: flag.into_text(),
            double_dash: false,
            without_dash: false,
            value_double_quote: false,
            value: None,
            value_spacer: None,
            flag_shadow: PhantomData,
            value_shadow: PhantomData,
            spacer_shadow: PhantomData,
        }
    }
}

impl Arg<WithFlag, NoValue, NoSpacer> {
    pub fn with_double_dash(self) -> (r: Self)
        ensures
            r@ == (ArgView { double_dash: true, ..self@ }),
    {
        let mut a = self;
        a.double_dash = true;
        a
    }

    pub fn without_dash(self) -> (r: Self)
        ensures
            r@ == (ArgView { without_dash: true, ..self@ }),
    {
        let mut a = self;
        a.without_dash = true;
        a
    }

    pub fn value<T: ArgText>(self, value: T) -> (r: Arg<WithFlag, WithValue, NoSpacer>)
        ensures
            r@ == (ArgView { value: value.text(), ..self@ }),
    {
        Arg {
            flag: self.flag,
            double_dash: self.double_dash,
            without_dash: self.without_dash,
            value_double_quote: self.value_double_quote,
            value: Some(value.into_text()),
            value_spacer: self.value_spacer,
            flag_shadow: PhantomData,
            value_shadow: PhantomData,
            spacer_shadow: PhantomData,
        }
    }

    /// Takes the concatenation of `value`'s parts as the value.
    pub fn value_with_vec(self, value: Vec<String>) -> (r: Arg<WithFlag, WithValue, NoSpacer>)
        ensures
            r@ == (ArgView { value: join_texts(texts(value@)), ..self@ }),
    {
        let joined = join_all(&value);
        Arg {
            flag: self.flag,
            double_dash: self.double_dash,
            without_dash: self.without_dash,
            value_double_quote: self.value_double_quote,
            value: Some(joined),
            value_spacer: self.value_spacer,
            flag_shadow: PhantomData,
            value_shadow: PhantomData,
            spacer_shadow: PhantomData,
        }
    }

    /// The flag alone, as one token.
    pub fn build(self) -> (r: Vec<String>)
        ensures
            texts(r@) == seq![dashed_flag(self@)],
    {
        let mut vals = Vec::new();
        vals.push(dashed(&self));
        assert(texts(vals@) =~= seq![dashed_flag(self@)]);
        vals
    }
}

impl Arg<WithFlag, WithValue, NoSpacer> {
    /// The flag and the value, as two tokens.
    pub fn build(self) -> (r: Vec<String>)
        ensures
            texts(r@) == seq![dashed_flag(self@), self@.value],
    {
        let mut vals = Vec::new();
        vals.push(dashed(&self));
        vals.push(text_of(&self.value));
        assert(texts(vals@) =~= seq![dashed_flag(self@), self@.value]);
        vals
    }

    pub fn with_value_spacer<T: ArgText>(self, spacer: T) -> (r: Arg<WithFlag, WithValue, WithSpacer>)
        ensures
            r@ == (ArgView { value_spacer: spacer.text(), ..self@ }),
    {
        Arg {
            flag: self.flag,
            double_dash: self.double_dash,
            without_dash: self.without_dash,
            value_double_quote: self.value_double_quote,
            value: self.value,
            value_spacer: Some(spacer.into_text()),
            flag_shadow: PhantomData,
            value_shadow: PhantomData,
            spacer_shadow: PhantomData,
        }
    }

    pub fn value_double_quote(self) -> (r: Self)
        ensures
            r@ == (ArgView { value_double_quote: true, ..self@ }),
    {
        let mut a = self;
        a.value_double_quote = true;
        a
    }
}

impl Arg<WithFlag, WithValue, WithSpacer> {
    /// Flag, spacer and value glued into one token.
    pub fn build(self) -> (r: Vec<String>)
        ensures
            texts(r@) == seq![spaced_token(self@)],
    {
        let mut joined = dashed(&self);
        joined.append(text_of(&self.value_spacer).as_str());
        joined.append(text_of(&self.value).as_str());
        let token = if self.value_double_quote {
            let mut q = prefixed("\"", &joined);
            q.append("\"");
            q
        } else {
            joined
        };
        let mut vals = Vec::new();
        vals.push(token);
        assert(texts(vals@) =~= seq![spaced_token(self@)]);
        vals
    }
}

} // verus!
