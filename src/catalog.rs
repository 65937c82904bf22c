use crate::render::str_equal;
use vstd::prelude::*;
use vstd::string::*;

verus! {

/// A template body, stored under the file extension it serves.
pub struct TemplateEntry {
    pub extension: String,
    pub source: String,
}

/// The templates that new files are made from, keyed by file extension
/// (without a leading dot). Built once and only read afterwards.
pub struct TemplateCatalog {
    entries: Vec<TemplateEntry>,
}

/// `e` with one leading `.` removed, if it has one.
pub open spec fn normalized_extension(e: Seq<char>) -> Seq<char> {
    if e.len() > 0 && e[0] == '.' {
        e.drop_first()
    } else {
        e
    }
}

/// The source stored under `key` among `entries`, the first such entry if
/// any.
pub open spec fn lookup_entries(entries: Seq<(Seq<char>, Seq<char>)>, key: Seq<char>) -> Option<
    Seq<char>,
>
    decreases entries.len(),
{
    if entries.len() == 0 {
        None
    } else if entries[0].0 == key {
        Some(entries[0].1)
    } else {
        lookup_entries(entries.drop_first(), key)
    }
}

pub const CMAKE_TEMPLATE: &'static str = "#\n# {{ filename }}\n#\n# {{ brief }}\n#\n# Author: {{ author }}\n# Date: {{ date }}\n#\n";

pub const CPP_TEMPLATE: &'static str = "/**\n * @file {{ filename }}\n * @brief {{ brief }}\n * @author {{ author }}\n * @date {{ date }}\n */\n";

pub const CSHARP_TEMPLATE: &'static str = "// <summary>\n// {{ filename }}: {{ brief }}\n// </summary>\n// <author>{{ author }}</author>\n// <date>{{ date }}</date>\n";

pub const HPP_TEMPLATE: &'static str = "/**\n * @file {{ filename }}\n * @brief {{ brief }}\n * @author {{ author }}\n * @date {{ date }}\n */\n\n#pragma once\n";

pub const PS1_TEMPLATE: &'static str = "<#\n.SYNOPSIS\n    {{ brief }}\n.NOTES\n    File: {{ filename }}\n    Author: {{ author }}\n    Date: {{ date }}\n#>\n";

pub const PY_TEMPLATE: &'static str = "\"\"\"\n{{ filename }}\n\n{{ brief }}\n\nAuthor: {{ author }}\nDate: {{ date }}\n\"\"\"\n";

pub const SH_TEMPLATE: &'static str = "#!/usr/bin/env bash\n#\n# {{ filename }}\n#\n# {{ brief }}\n#\n# Author: {{ author }}\n# Date: {{ date }}\n#\n";

impl TemplateCatalog {
    /// The entries as (extension, source) pairs.
    pub closed spec fn view(&self) -> Seq<(Seq<char>, Seq<char>)> {
        self.entries@.map_values(|e: TemplateEntry| (e.extension@, e.source@))
    }

    /// Keys are unique and carry no leading dot.
    pub open spec fn wf(&self) -> bool {
        &&& forall|i: int|
            0 <= i < self@.len() ==> normalized_extension(#[trigger] self@[i].0) == self@[i].0
        &&& forall|i: int, j: int|
            0 <= i < j < self@.len() ==> #[trigger] self@[i].0 != #[trigger] self@[j].0
    }

    /// The template for extension `e`, after its leading dot is dropped.
    pub open spec fn spec_get(&self, e: Seq<char>) -> Option<Seq<char>> {
        lookup_entries(self@, normalized_extension(e))
    }

    /// The catalog of the templates compiled into the library, under the
    /// extensions `cmake`, `cpp`, `cs`, `hpp`, `ps1`, `py` and `sh`.
    pub fn builtin() -> (r: TemplateCatalog)
        ensures
            r.wf(),
            r@ == seq![
                ("cmake"@, CMAKE_TEMPLATE@),
                ("cpp"@, CPP_TEMPLATE@),
                ("cs"@, CSHARP_TEMPLATE@),
                ("hpp"@, HPP_TEMPLATE@),
                ("ps1"@, PS1_TEMPLATE@),
                ("py"@, PY_TEMPLATE@),
                ("sh"@, SH_TEMPLATE@),
            ],
    {
        let mut entries: Vec<TemplateEntry> = Vec::new();
        entries.push(TemplateEntry { extension: String::from_str("cmake"), source: String::from_str(CMAKE_TEMPLATE) });
        entries.push(TemplateEntry { extension: String::from_str("cpp"), source: String::from_str(CPP_TEMPLATE) });
        entries.push(TemplateEntry { extension: String::from_str("cs"), source: String::from_str(CSHARP_TEMPLATE) });
        entries.push(TemplateEntry { extension: String::from_str("hpp"), source: String::from_str(HPP_TEMPLATE) });
        entries.push(TemplateEntry { extension: String::from_str("ps1"), source: String::from_str(PS1_TEMPLATE) });
        entries.push(TemplateEntry { extension: String::from_str("py"), source: String::from_str(PY_TEMPLATE) });
        entries.push(TemplateEntry { extension: String::from_str("sh"), source: String::from_str(SH_TEMPLATE) });
        let r = TemplateCatalog { entries };
        proof {
            reveal_strlit("cmake");
            reveal_strlit("cpp");
            reveal_strlit("cs");
            reveal_strlit("hpp");
            reveal_strlit("ps1");
            reveal_strlit("py");
            reveal_strlit("sh");
            assert(r@ =~= seq![
                ("cmake"@, CMAKE_TEMPLATE@),
                ("cpp"@, CPP_TEMPLATE@),
                ("cs"@, CSHARP_TEMPLATE@),
                ("hpp"@, HPP_TEMPLATE@),
                ("ps1"@, PS1_TEMPLATE@),
                ("py"@, PY_TEMPLATE@),
                ("sh"@, SH_TEMPLATE@),
            ]);
            assert forall|i: int, j: int| 0 <= i < j < r@.len() implies #[trigger] r@[i].0
                != #[trigger] r@[j].0 by {
                assert(r@[i].0.len() != r@[j].0.len() || r@[i].0[0] != r@[j].0[0]);
            }
        }
        r
    }

    /// The number of templates.
    pub fn len(&self) -> (r: usize)
        ensures
            r == self@.len(),
    {
        self.entries.len()
    }

    /// The template for `extension`; a leading `.` on it is ignored.
    pub fn get(&self, extension: &str) -> (r: Option<&String>)
        ensures
            match r {
                Some(s) => self.spec_get(extension@) == Some(s@),
                None => self.spec_get(extension@).is_none(),
            },
    {
        let key = strip_dot(extension);
        let n = self.entries.len();
        let mut i: usize = 0;
        assert(self@.subrange(0, n as int) =~= self@);
        while i < n
            invariant
                i <= n,
                n == self@.len(),
                n == self.entries@.len(),
                key@ == normalized_extension(extension@),
                lookup_entries(self@, key@) == lookup_entries(self@.subrange(i as int, n as int), key@),
            decreases n - i,
        {
            let e = &self.entries[i];
            assert(self@[i as int] == (e.extension@, e.source@));
            assert(self@.subrange(i as int, n as int)[0] == self@[i as int]);
            if str_equal(e.extension.as_str(), key) {
                return Some(&e.source);
            }
            assert(self@.subrange(i as int, n as int).drop_first() =~= self@.subrange(i + 1, n as int));
            i = i + 1;
        }
        None
    }
}

/// `e` with one leading `.` removed, if it has one.
pub fn strip_dot(e: &str) -> (r: &str)
    ensures
        r@ == normalized_extension(e@),
{
    let n = e.unicode_len();
    if n > 0 && e.get_char(0) == '.' {
        let r = e.substring_char(1, n);
        assert(r@ =~= e@.drop_first());
        r
    } else {
        let r = e.substring_char(0, n);
        assert(r@ =~= e@);
        r
    }
}

} // verus!
