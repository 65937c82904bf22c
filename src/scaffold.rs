use crate::catalog::TemplateCatalog;
use crate::digits::{fixed_digits, push_fixed};
use crate::error::{DevtoolError, FileError};
use crate::render::{render, render_spec, ContextView, RenderContext};
use vstd::prelude::*;
use vstd::string::*;

verus! {

pub open spec fn is_separator(c: char) -> bool {
    c == '/' || c == '\\'
}

/// The index of the last path separator in `s`, or -1 when there is none.
pub open spec fn last_separator(s: Seq<char>) -> int
    decreases s.len(),
{
    if s.len() == 0 {
        -1
    } else if is_separator(s.last()) {
        s.len() - 1
    } else {
        last_separator(s.drop_last())
    }
}

/// The index of the last `c` in `s`, or -1 when there is none.
pub open spec fn last_index_of(s: Seq<char>, c: char) -> int
    decreases s.len(),
{
    if s.len() == 0 {
        -1
    } else if s.last() == c {
        s.len() - 1
    } else {
        last_index_of(s.drop_last(), c)
    }
}

/// The final component of a path: what follows its last `/` or `\`.
pub open spec fn file_name_spec(p: Seq<char>) -> Seq<char> {
    p.subrange(last_separator(p) + 1, p.len() as int)
}

/// The extension of a file name: what follows its last `.`, or nothing when
/// the name has no dot or its only dot leads it (as in `.profile`).
pub open spec fn extension_spec(name: Seq<char>) -> Seq<char> {
    let k = last_index_of(name, '.');
    if k <= 0 {
        Seq::empty()
    } else {
        name.subrange(k + 1, name.len() as int)
    }
}

/// The final component of `path`.
pub fn file_name_of(path: &str) -> (r: &str)
    ensures
        r@ == file_name_spec(path@),
{
    let n = path.unicode_len();
    let mut i: usize = n;
    assert(path@.subrange(0, n as int) =~= path@);
    while i > 0 && !(path.get_char(i - 1) == '/' || path.get_char(i - 1) == '\\')
        invariant
            i <= n,
            n == path@.len(),
            last_separator(path@) == last_separator(path@.subrange(0, i as int)),
        decreases i,
    {
        assert(path@.subrange(0, i as int).drop_last() =~= path@.subrange(0, i - 1));
        i = i - 1;
    }
    path.substring_char(i, n)
}

/// The extension of the file name `name`, without its dot.
pub fn extension_of(name: &str) -> (r: &str)
    ensures
        r@ == extension_spec(name@),
{
    let n = name.unicode_len();
    let mut i: usize = n;
    assert(name@.subrange(0, n as int) =~= name@);
    while i > 0 && name.get_char(i - 1) != '.'
        invariant
            i <= n,
            n == name@.len(),
            last_index_of(name@, '.') == last_index_of(name@.subrange(0, i as int), '.'),
        decreases i,
    {
        assert(name@.subrange(0, i as int).drop_last() =~= name@.subrange(0, i - 1));
        i = i - 1;
    }
    if i <= 1 {
        let r = name.substring_char(0, 0);
        assert(r@ =~= Seq::<char>::empty());
        r
    } else {
        name.substring_char(i, n)
    }
}

/// What a new file is made of.
pub enum FilePlan {
    /// An empty file at `path`.
    Empty { path: String },
    /// A file at `path` rendered from `template`; `file_name` is the path's
    /// final component.
    FromTemplate { path: String, file_name: String, template: String },
}

/// Decides how the file at `path` is made: from the catalog's template for
/// its extension, or empty when the catalog has none. A path without a final
/// component is refused.
pub fn plan_new_file(catalog: &TemplateCatalog, path: &str) -> (r: Result<FilePlan, DevtoolError>)
    ensures
        file_name_spec(path@).len() == 0 ==> r == Err::<FilePlan, DevtoolError>(
            DevtoolError::File(FileError::NoPath),
        ),
        file_name_spec(path@).len() > 0 ==> match catalog.spec_get(
            extension_spec(file_name_spec(path@)),
        ) {
            None => r matches Ok(FilePlan::Empty { path: p }) && p@ == path@,
            Some(src) => r matches Ok(FilePlan::FromTemplate { path: p, file_name: f, template: t })
                && p@ == path@ && f@ == file_name_spec(path@) && t@ == src,
        },
{
    let name = file_name_of(path);
    if name.unicode_len() == 0 {
        return Err(DevtoolError::File(FileError::NoPath));
    }
    let ext = extension_of(name);
    match catalog.get(ext) {
        None => Ok(FilePlan::Empty { path: String::from_str(path) }),
        Some(t) => Ok(
            FilePlan::FromTemplate {
                path: String::from_str(path),
                file_name: String::from_str(name),
                template: t.clone(),
            },
        ),
    }
}

/// A calendar day; the year has at most four digits.
pub struct CalendarDate {
    year: u16,
    month: u8,
    day: u8,
}

impl CalendarDate {
    pub closed spec fn spec_year(&self) -> nat {
        self.year as nat
    }

    pub closed spec fn spec_month(&self) -> nat {
        self.month as nat
    }

    pub closed spec fn spec_day(&self) -> nat {
        self.day as nat
    }

    pub open spec fn wf(&self) -> bool {
        self.spec_year() <= 9999 && 1 <= self.spec_month() <= 12 && 1 <= self.spec_day() <= 31
    }

    /// The date written `YYYY-MM-DD`.
    pub open spec fn iso_spec(&self) -> Seq<char> {
        fixed_digits(self.spec_year(), 4) + seq!['-'] + fixed_digits(self.spec_month(), 2) + seq![
            '-',
        ] + fixed_digits(self.spec_day(), 2)
    }

    /// The day `year-month-day`, or `None` when a field is out of range.
    pub fn new(year: u32, month: u32, day: u32) -> (r: Option<CalendarDate>)
        ensures
            match r {
                Some(d) => d.wf() && d.spec_year() == year && d.spec_month() == month
                    && d.spec_day() == day,
                None => !(year <= 9999 && 1 <= month <= 12 && 1 <= day <= 31),
            },
    {
        if year <= 9999 && 1 <= month && month <= 12 && 1 <= day && day <= 31 {
            Some(CalendarDate { year: year as u16, month: month as u8, day: day as u8 })
        } else {
            None
        }
    }

    /// The date written `YYYY-MM-DD`.
    pub fn iso_text(&self) -> (r: String)
        ensures
            r@ == self.iso_spec(),
    {
        let mut out = String::new();
        push_fixed(&mut out, self.year as u64, 4);
        out.append("-");
        push_fixed(&mut out, self.month as u64, 2);
        out.append("-");
        push_fixed(&mut out, self.day as u64, 2);
        proof {
            reveal_strlit("-");
        }
        assert(out@ =~= self.iso_spec());
        out
    }
}

/// The brief that a new file gets: the one given, or nothing.
pub open spec fn brief_spec(brief: Option<Seq<char>>) -> Seq<char> {
    match brief {
        Some(b) => b,
        None => Seq::empty(),
    }
}

/// The render context of a new file.
pub open spec fn file_context(
    file_name: Seq<char>,
    author: Seq<char>,
    date: Seq<char>,
    brief: Option<Seq<char>>,
) -> ContextView {
    (file_name, author, date, brief_spec(brief))
}

/// The text of a new file made from `template`: the file name, the author
/// (when the identity lookup gave one), the date and the brief (empty when
/// none was given) take the places of their placeholders.
pub fn file_content(
    template: &str,
    file_name: &str,
    author: &Result<String, ()>,
    date: &CalendarDate,
    brief: &Option<String>,
) -> (r: Result<String, DevtoolError>)
    ensures
        match author {
            Err(_) => r == Err::<String, DevtoolError>(DevtoolError::IdentityUnavailable),
            Ok(a) => {
                let ctx = file_context(
                    file_name@,
                    a@,
                    date.iso_spec(),
                    match brief {
                        Some(b) => Some(b@),
                        None => None,
                    },
                );
                match r {
                    Ok(out) => render_spec(template@, ctx) == Some(out@),
                    Err(e) => render_spec(template@, ctx).is_none() && e == DevtoolError::RenderError,
                }
            },
        },
{
    let author = match author {
        Err(_) => {
            return Err(DevtoolError::IdentityUnavailable);
        },
        Ok(a) => a.clone(),
    };
    let brief = match brief {
        Some(b) => b.clone(),
        None => String::new(),
    };
    let ctx = RenderContext {
        filename: String::from_str(file_name),
        author,
        date: date.iso_text(),
        brief,
    };
    render(template, &ctx)
}

} // verus!
