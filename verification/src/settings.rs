//! The display settings that the settings page saves: a text style for
//! each named text of the window.

use vstd::prelude::*;

verus! {

/// How one text of the window is drawn.
pub struct TextStyle {
    pub font_family: String,
    pub font_size: u8,
    pub font_weight: u16,
    pub font_color: String,
    pub font_italic: bool,
}

/// The text styles, each under the name of the text it applies to.
pub struct Settings {
    pub text: Vec<(String, TextStyle)>,
}

/// The name of the console's time column.
pub open spec fn console_time_key() -> Seq<char> {
    seq!['c', 'o', 'n', 's', 'o', 'l', 'e', 'T', 'i', 'm', 'e', 'T', 'e', 'x', 't']
}

/// The name of the console's message column.
pub open spec fn console_main_key() -> Seq<char> {
    seq!['c', 'o', 'n', 's', 'o', 'l', 'e', 'M', 'a', 'i', 'n', 'T', 'e', 'x', 't']
}

/// The index of the first entry named `key`, if any.
pub open spec fn find_key(entries: Seq<(String, TextStyle)>, key: Seq<char>) -> Option<int>
    decreases entries.len(),
{
    if entries.len() == 0 {
        None
    } else if entries[0].0@ == key {
        Some(0)
    } else {
        match find_key(entries.drop_first(), key) {
            Some(i) => Some(i + 1),
            None => None,
        }
    }
}

/// No two entries share a name, as in the name-to-style map the settings
/// are saved as.
pub open spec fn keys_unique(entries: Seq<(String, TextStyle)>) -> bool {
    forall|i: int, j: int|
        0 <= i < j < entries.len() ==> #[trigger] entries[i].0@ != #[trigger] entries[j].0@
}

/// `find_key` finds the first entry with the name, or reports that there is
/// none.
pub proof fn lemma_find_key(entries: Seq<(String, TextStyle)>, key: Seq<char>)
    ensures
        match find_key(entries, key) {
            Some(i) => 0 <= i < entries.len() && entries[i].0@ == key && forall|j: int|
                0 <= j < i ==> (#[trigger] entries[j]).0@ != key,
            None => forall|j: int| 0 <= j < entries.len() ==> (#[trigger] entries[j]).0@ != key,
        },
    decreases entries.len(),
{
    if entries.len() > 0 {
        let rest = entries.drop_first();
        lemma_find_key(rest, key);
        assert forall|j: int| 0 < j < entries.len() implies entries[j] == rest[j - 1] by {}
    }
}

/// An index found in a tail of a sequence, as an index of the whole.
pub open spec fn shifted(found: Option<int>, offset: int) -> Option<int> {
    match found {
        Some(j) => Some(j + offset),
        None => None,
    }
}

/// The style saved for the console: Roboto, weight 400, white, upright, at
/// the given size.
pub open spec fn is_console_style(style: TextStyle, font_size: u8) -> bool {
    &&& style.font_family@ == "Roboto"@
    &&& style.font_size == font_size
    &&& style.font_weight == 400
    &&& style.font_color@ == "#ffffff"@
    &&& !style.font_italic
}

/// Every console style is Roboto at weight 400, white and upright, whatever
/// its size: two console styles differ only in their font size.
pub proof fn lemma_console_styles_differ_only_in_size(
    a: TextStyle,
    b: TextStyle,
    size_a: u8,
    size_b: u8,
)
    requires
        is_console_style(a, size_a),
        is_console_style(b, size_b),
    ensures
        a.font_size == size_a,
        b.font_size == size_b,
        a.font_weight == 400,
        a.font_weight == b.font_weight,
        a.font_family@ == "Roboto"@,
        a.font_family@ == b.font_family@,
        a.font_color@ == "#ffffff"@,
        a.font_color@ == b.font_color@,
        !a.font_italic,
        a.font_italic == b.font_italic,
{
}

/// The console's text style at the given size.
pub fn console_text_style(font_size: u8) -> (style: TextStyle)
    ensures
        is_console_style(style, font_size),
{
    TextStyle {
        font_family: "Roboto".to_string(),
        font_size,
        font_weight: 400,
        font_color: "#ffffff".to_string(),
        font_italic: false,
    }
}

impl Settings {
    /// The settings are well formed: no two styles under one name.
    pub open spec fn wf(&self) -> bool {
        keys_unique(self.text@)
    }

    /// The settings that the settings page saves: the console's time column
    /// and message column, each in the console style at its own size.
    pub fn console(time_size: u8, main_size: u8) -> (s: Settings)
        ensures
            s.text@.len() == 2,
            s.text@[0].0@ == console_time_key(),
            is_console_style(s.text@[0].1, time_size),
            s.text@[1].0@ == console_main_key(),
            is_console_style(s.text@[1].1, main_size),
            find_key(s.text@, console_time_key()) == Some(0int),
            find_key(s.text@, console_main_key()) == Some(1int),
            s.wf(),
    {
        let mut text: Vec<(String, TextStyle)> = Vec::new();
        let time_key = "consoleTimeText".to_string();
        let main_key = "consoleMainText".to_string();
        proof {
            reveal_strlit("consoleTimeText");
            reveal_strlit("consoleMainText");
        }
        assert(time_key@ =~= console_time_key());
        assert(main_key@ =~= console_main_key());
        text.push((time_key, console_text_style(time_size)));
        text.push((main_key, console_text_style(main_size)));
        let s = Settings { text };
        proof {
            assert(s.text@.drop_first()[0].0@ == console_main_key());
            assert(find_key(s.text@.drop_first(), console_main_key()) == Some(0int));
            assert(console_time_key() != console_main_key()) by {
                assert(console_time_key()[7] != console_main_key()[7]);
            }
        }
        s
    }

    /// The style saved under `key`: that of the first entry with that name;
    /// in well-formed settings, the one entry with that name.
    pub fn get(&self, key: &str) -> (r: Option<&TextStyle>)
        ensures
            match find_key(self.text@, key@) {
                Some(i) => r == Some(&self.text@[i].1),
                None => r is None,
            },
            r is None <==> forall|j: int|
                0 <= j < self.text@.len() ==> (#[trigger] self.text@[j]).0@ != key@,
            self.wf() ==> forall|j: int|
                0 <= j < self.text@.len() && (#[trigger] self.text@[j]).0@ == key@ ==> r == Some(
                    &self.text@[j].1,
                ),
    {
        proof {
            lemma_find_key(self.text@, key@);
            if let Some(i) = find_key(self.text@, key@) {
                if self.wf() {
                    assert forall|j: int|
                        0 <= j < self.text@.len() && (#[trigger] self.text@[j]).0@ == key@ implies j
                        == i by {
                        if j < i {
                            assert(self.text@[j].0@ != self.text@[i].0@);
                        } else if j > i {
                            assert(self.text@[i].0@ != self.text@[j].0@);
                        }
                    }
                }
            }
        }
        let wanted = key.to_string();
        let mut i: usize = 0;
        assert(self.text@.skip(0) =~= self.text@);
        while i < self.text.len()
            invariant
                i <= self.text@.len(),
                wanted@ == key@,
                find_key(self.text@, key@) == shifted(find_key(self.text@.skip(i as int), key@), i as int),
            decreases self.text.len() - i,
        {
            proof {
                let rest = self.text@.skip(i as int);
                assert(rest.drop_first() =~= self.text@.skip(i + 1));
                assert(rest[0] == self.text@[i as int]);
            }
            if self.text[i].0 == wanted {
                return Some(&self.text[i].1);
            }
            i = i + 1;
        }
        assert(self.text@.skip(i as int) =~= Seq::<(String, TextStyle)>::empty());
        None
    }
}

} // verus!
