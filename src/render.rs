use crate::error::DevtoolError;
use vstd::prelude::*;
use vstd::string::*;

verus! {

/// The values that a template may refer to, by name.
pub struct RenderContext {
    pub filename: String,
    pub author: String,
    pub date: String,
    pub brief: String,
}

/// The four values of a render context, in the order
/// filename, author, date, brief.
pub type ContextView = (Seq<char>, Seq<char>, Seq<char>, Seq<char>);

impl RenderContext {
    pub open spec fn view(&self) -> ContextView {
        (self.filename@, self.author@, self.date@, self.brief@)
    }
}

/// The value bound to `name`, if `name` is one of the four variable names.
pub open spec fn lookup_var(ctx: ContextView, name: Seq<char>) -> Option<Seq<char>> {
    if name == "filename"@ {
        Some(ctx.0)
    } else if name == "author"@ {
        Some(ctx.1)
    } else if name == "date"@ {
        Some(ctx.2)
    } else if name == "brief"@ {
        Some(ctx.3)
    } else {
        None
    }
}

pub open spec fn starts_with_pair(t: Seq<char>, c: char) -> bool {
    t.len() >= 2 && t[0] == c && t[1] == c
}

/// `s` without its leading spaces.
pub open spec fn strip_front(s: Seq<char>) -> Seq<char>
    decreases s.len(),
{
    if s.len() > 0 && s[0] == ' ' {
        strip_front(s.drop_first())
    } else {
        s
    }
}

/// `s` without its trailing spaces.
pub open spec fn strip_back(s: Seq<char>) -> Seq<char>
    decreases s.len(),
{
    if s.len() > 0 && s.last() == ' ' {
        strip_back(s.drop_last())
    } else {
        s
    }
}

pub open spec fn trim_spaces(s: Seq<char>) -> Seq<char> {
    strip_back(strip_front(s))
}

/// `o` in front of a rendered rest, failure passing through.
pub open spec fn prefixed(o: Seq<char>, r: Option<Seq<char>>) -> Option<Seq<char>> {
    match r {
        Some(x) => Some(o + x),
        None => None,
    }
}

/// Renders `t` from left to right. Outside a placeholder (`open` is `None`)
/// each character is copied, except that `{{` opens a placeholder; inside one
/// (`open` holds the name read so far) characters are collected until `}}`,
/// which puts the value of the space-trimmed name in its place. An unknown
/// name or a placeholder left open fails the whole rendering.
pub open spec fn render_from(t: Seq<char>, ctx: ContextView, open: Option<Seq<char>>) -> Option<
    Seq<char>,
>
    decreases t.len(),
{
    match open {
        None => {
            if t.len() == 0 {
                Some(Seq::empty())
            } else if starts_with_pair(t, '{') {
                render_from(t.subrange(2, t.len() as int), ctx, Some(Seq::empty()))
            } else {
                prefixed(seq![t[0]], render_from(t.drop_first(), ctx, None))
            }
        },
        Some(name) => {
            if t.len() == 0 {
                None
            } else if starts_with_pair(t, '}') {
                match lookup_var(ctx, trim_spaces(name)) {
                    Some(v) => prefixed(v, render_from(t.subrange(2, t.len() as int), ctx, None)),
                    None => None,
                }
            } else {
                render_from(t.drop_first(), ctx, Some(name.push(t[0])))
            }
        },
    }
}

/// The text that `t` renders to under `ctx`, or `None` where rendering fails.
pub open spec fn render_spec(t: Seq<char>, ctx: ContextView) -> Option<Seq<char>> {
    render_from(t, ctx, None)
}

/// `c` does not occur in `s`.
pub open spec fn lacks(s: Seq<char>, c: char) -> bool {
    forall|i: int| 0 <= i < s.len() ==> #[trigger] s[i] != c
}

/// No two adjacent `{` in `s`, so no placeholder can open in it.
pub open spec fn no_open_pair(s: Seq<char>) -> bool {
    forall|i: int| 0 <= i < s.len() - 1 ==> !(#[trigger] s[i] == '{' && s[i + 1] == '{')
}

/// No value of `ctx` holds a `{`.
pub open spec fn values_lack_brace(ctx: ContextView) -> bool {
    lacks(ctx.0, '{') && lacks(ctx.1, '{') && lacks(ctx.2, '{') && lacks(ctx.3, '{')
}

proof fn lemma_render_from_no_open_pair(t: Seq<char>, ctx: ContextView, open: Option<Seq<char>>)
    requires
        values_lack_brace(ctx),
    ensures
        render_from(t, ctx, open) matches Some(out) ==> no_open_pair(out) && (open is None
            && out.len() > 0 && out[0] == '{' ==> t.len() > 0 && t[0] == '{'),
    decreases t.len(),
{
    match open {
        None => {
            if t.len() == 0 {
            } else if starts_with_pair(t, '{') {
                lemma_render_from_no_open_pair(t.subrange(2, t.len() as int), ctx, Some(Seq::empty()));
            } else {
                lemma_render_from_no_open_pair(t.drop_first(), ctx, None);
                if let Some(r) = render_from(t.drop_first(), ctx, None) {
                    let out = seq![t[0]] + r;
                    assert forall|i: int| 0 <= i < out.len() - 1 implies !(#[trigger] out[i] == '{'
                        && out[i + 1] == '{') by {
                        if i > 0 {
                            assert(out[i] == r[i - 1] && out[i + 1] == r[i]);
                        } else if out[0] == '{' && out[1] == '{' {
                            assert(r[0] == '{');
                            assert(t.drop_first()[0] == t[1]);
                        }
                    }
                }
            }
        },
        Some(name) => {
            if t.len() == 0 {
            } else if starts_with_pair(t, '}') {
                lemma_render_from_no_open_pair(t.subrange(2, t.len() as int), ctx, None);
                if let Some(v) = lookup_var(ctx, trim_spaces(name)) {
                    if let Some(r) = render_from(t.subrange(2, t.len() as int), ctx, None) {
                        assert(lacks(v, '{'));
                        let out = v + r;
                        assert forall|i: int| 0 <= i < out.len() - 1 implies !(#[trigger] out[i]
                            == '{' && out[i + 1] == '{') by {
                            if i >= v.len() {
                                assert(out[i] == r[i - v.len()] && out[i + 1] == r[i + 1 - v.len()]);
                            } else {
                                assert(out[i] == v[i]);
                            }
                        }
                    }
                }
            } else {
                lemma_render_from_no_open_pair(t.drop_first(), ctx, Some(name.push(t[0])));
            }
        },
    }
}

/// When no value holds a `{`, a rendered text holds no `{{`: every
/// placeholder of the template has been replaced.
pub proof fn lemma_rendered_has_no_placeholder(t: Seq<char>, ctx: ContextView)
    requires
        values_lack_brace(ctx),
    ensures
        render_spec(t, ctx) matches Some(out) ==> no_open_pair(out),
{
    lemma_render_from_no_open_pair(t, ctx, None);
}

proof fn lemma_literal_prefix(pre: Seq<char>, rest: Seq<char>, ctx: ContextView)
    requires
        lacks(pre, '{'),
    ensures
        render_from(pre + rest, ctx, None) == prefixed(pre, render_from(rest, ctx, None)),
    decreases pre.len(),
{
    if pre.len() == 0 {
        assert(pre + rest =~= rest);
        match render_from(rest, ctx, None) {
            Some(x) => assert(pre + x =~= x),
            None => {},
        }
    } else {
        let t = pre + rest;
        assert(t[0] == pre[0]);
        assert(t.drop_first() =~= pre.drop_first() + rest);
        lemma_literal_prefix(pre.drop_first(), rest, ctx);
        match render_from(rest, ctx, None) {
            Some(x) => assert(seq![pre[0]] + (pre.drop_first() + x) =~= pre + x),
            None => {},
        }
    }
}

proof fn lemma_name_collected(name: Seq<char>, k: int, rest: Seq<char>, ctx: ContextView)
    requires
        0 <= k <= name.len(),
        lacks(name, '}'),
    ensures
        render_from(name.subrange(k, name.len() as int) + rest, ctx, Some(name.subrange(0, k)))
            == render_from(rest, ctx, Some(name)),
    decreases name.len() - k,
{
    if k == name.len() {
        assert(name.subrange(k, name.len() as int) + rest =~= rest);
        assert(name.subrange(0, k) =~= name);
    } else {
        let t = name.subrange(k, name.len() as int) + rest;
        assert(t[0] == name[k]);
        assert(t.drop_first() =~= name.subrange(k + 1, name.len() as int) + rest);
        assert(name.subrange(0, k).push(name[k]) =~= name.subrange(0, k + 1));
        lemma_name_collected(name, k + 1, rest, ctx);
    }
}

/// A placeholder `{{name}}` after literal text is replaced by the value of
/// its space-trimmed name, and rendering goes on after it.
pub proof fn lemma_placeholder_replaced(
    pre: Seq<char>,
    name: Seq<char>,
    post: Seq<char>,
    ctx: ContextView,
    value: Seq<char>,
)
    requires
        lacks(pre, '{'),
        lacks(name, '}'),
        lookup_var(ctx, trim_spaces(name)) == Some(value),
    ensures
        render_spec(pre + seq!['{', '{'] + name + seq!['}', '}'] + post, ctx) == prefixed(
            pre + value,
            render_spec(post, ctx),
        ),
{
    let closing = seq!['}', '}'] + post;
    let t = seq!['{', '{'] + name + closing;
    assert(pre + seq!['{', '{'] + name + seq!['}', '}'] + post =~= pre + t);
    lemma_literal_prefix(pre, t, ctx);
    assert(t.subrange(2, t.len() as int) =~= name.subrange(0, name.len() as int) + closing);
    assert(name.subrange(0, 0) =~= Seq::<char>::empty());
    lemma_name_collected(name, 0, closing, ctx);
    assert(closing.subrange(2, closing.len() as int) =~= post);
    match render_spec(post, ctx) {
        Some(x) => assert(pre + (value + x) =~= pre + value + x),
        None => {},
    }
}

/// Compares two strings character by character.
pub fn str_equal(a: &str, b: &str) -> (r: bool)
    ensures
        r == (a@ == b@),
{
    let n = a.unicode_len();
    if n != b.unicode_len() {
        return false;
    }
    let mut i: usize = 0;
    while i < n
        invariant
            i <= n,
            n == a@.len(),
            n == b@.len(),
            forall|k: int| 0 <= k < i ==> a@[k] == b@[k],
        decreases n - i,
    {
        if a.get_char(i) != b.get_char(i) {
            return false;
        }
        i = i + 1;
    }
    assert(a@ =~= b@);
    true
}

/// `s` without leading and trailing spaces.
pub fn trim_name(s: &str) -> (r: &str)
    ensures
        r@ == trim_spaces(s@),
{
    let n = s.unicode_len();
    let mut a: usize = 0;
    assert(s@.subrange(0, n as int) =~= s@);
    while a < n && s.get_char(a) == ' '
        invariant
            a <= n,
            n == s@.len(),
            strip_front(s@) == strip_front(s@.subrange(a as int, n as int)),
        decreases n - a,
    {
        assert(s@.subrange(a as int, n as int).drop_first() =~= s@.subrange(a + 1, n as int));
        a = a + 1;
    }
    let mut b: usize = n;
    assert(s@.subrange(a as int, n as int) =~= s@.subrange(a as int, b as int));
    while b > a && s.get_char(b - 1) == ' '
        invariant
            a <= b <= n,
            n == s@.len(),
            trim_spaces(s@) == strip_back(s@.subrange(a as int, b as int)),
        decreases b,
    {
        assert(s@.subrange(a as int, b as int).drop_last() =~= s@.subrange(a as int, b - 1));
        b = b - 1;
    }
    s.substring_char(a, b)
}

/// The value of `name` in `ctx`, if it is one of the four variable names.
pub fn lookup_value<'a>(ctx: &'a RenderContext, name: &str) -> (r: Option<&'a String>)
    ensures
        match r {
            Some(v) => lookup_var(ctx.view(), name@) == Some(v@),
            None => lookup_var(ctx.view(), name@).is_none(),
        },
{
    if str_equal(name, "filename") {
        Some(&ctx.filename)
    } else if str_equal(name, "author") {
        Some(&ctx.author)
    } else if str_equal(name, "date") {
        Some(&ctx.date)
    } else if str_equal(name, "brief") {
        Some(&ctx.brief)
    } else {
        None
    }
}

/// Renders `template` under `ctx`: each placeholder `{{ name }}` becomes the
/// value of `name`, and everything else is copied as it is.
pub fn render(template: &str, ctx: &RenderContext) -> (r: Result<String, DevtoolError>)
    ensures
        match r {
            Ok(out) => render_spec(template@, ctx.view()) == Some(out@),
            Err(e) => render_spec(template@, ctx.view()).is_none() && e == DevtoolError::RenderError,
        },
{
    let n = template.unicode_len();
    let mut out = String::new();
    let mut name = String::new();
    let mut inside = false;
    let mut i: usize = 0;
    assert(template@.subrange(0, n as int) =~= template@);
    assert(out@ + Seq::<char>::empty() =~= out@);
    while i < n
        invariant
            i <= n,
            n == template@.len(),
            render_spec(template@, ctx.view()) == prefixed(
                out@,
                render_from(
                    template@.subrange(i as int, n as int),
                    ctx.view(),
                    if inside {
                        Some(name@)
                    } else {
                        None
                    },
                ),
            ),
        decreases n - i,
    {
        let rest = Ghost(template@.subrange(i as int, n as int));
        let pair = i + 1 < n && template.get_char(i) == template.get_char(i + 1);
        let c = template.get_char(i);
        assert(rest@.len() > 0 && rest@[0] == c);
        assert(pair ==> rest@[1] == template@[i + 1]);
        assert(pair && c == '{' <==> starts_with_pair(rest@, '{'));
        assert(pair && c == '}' <==> starts_with_pair(rest@, '}'));
        if !inside {
            if pair && c == '{' {
                assert(template@.subrange(i as int, n as int).subrange(2, n - i) =~= template@.subrange(
                    i + 2,
                    n as int,
                ));
                name = String::new();
                inside = true;
                i = i + 2;
            } else {
                let old_out = Ghost(out@);
                out.append(template.substring_char(i, i + 1));
                assert(rest@.drop_first() =~= template@.subrange(i + 1, n as int));
                assert(out@ =~= old_out@ + seq![rest@[0]]);
                proof {
                    match render_from(rest@.drop_first(), ctx.view(), None) {
                        Some(x) => {
                            assert(old_out@ + (seq![rest@[0]] + x) =~= out@ + x);
                        },
                        None => {},
                    }
                }
                i = i + 1;
            }
        } else {
            if pair && c == '}' {
                let key = trim_name(name.as_str());
                match lookup_value(ctx, key) {
                    Some(v) => {
                        let old_out = Ghost(out@);
                        out.append(v.as_str());
                        assert(template@.subrange(i as int, n as int).subrange(2, n - i) =~= template@.subrange(
                            i + 2,
                            n as int,
                        ));
                        proof {
                            match render_from(template@.subrange(i + 2, n as int), ctx.view(), None) {
                                Some(x) => {
                                    assert(old_out@ + (v@ + x) =~= out@ + x);
                                },
                                None => {},
                            }
                        }
                        inside = false;
                        i = i + 2;
                    },
                    None => {
                        assert(render_from(rest@, ctx.view(), Some(name@)).is_none());
                        return Err(DevtoolError::RenderError);
                    },
                }
            } else {
                let old_name = Ghost(name@);
                name.append(template.substring_char(i, i + 1));
                assert(name@ =~= old_name@.push(rest@[0]));
                assert(rest@.drop_first() =~= template@.subrange(i + 1, n as int));
                i = i + 1;
            }
        }
    }
    if inside {
        Err(DevtoolError::RenderError)
    } else {
        assert(out@ + Seq::<char>::empty() =~= out@);
        Ok(out)
    }
}

} // verus!
