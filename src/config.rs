use vstd::prelude::*;
use crate::error::ExampleError;
use crate::text::{split, split_on, lemma_split_nonempty};

verus! {

/// The value a setting takes when the configuration does not name it.  No
/// real device identifier has this form.
pub const PLACEHOLDER: &'static str = "(null)";

pub open spec fn placeholder() -> Seq<char> {
    seq!['(', 'n', 'u', 'l', 'l', ')']
}

pub open spec fn usb_field() -> Seq<char> {
    seq!['U', 'S', 'B']
}

pub open spec fn key_field() -> Seq<char> {
    seq!['K', 'E', 'Y']
}

/// The lines of a configuration text.
pub open spec fn config_lines(content: Seq<char>) -> Seq<Seq<char>> {
    split(content, '\n')
}

/// A line is acceptable when it is empty or holds a `=`.
pub open spec fn line_ok(line: Seq<char>) -> bool {
    line.len() == 0 || split(line, '=').len() >= 2
}

/// Every line of the text is acceptable.
pub open spec fn content_ok(content: Seq<char>) -> bool {
    forall|i: int|
        0 <= i < config_lines(content).len() ==> #[trigger] line_ok(config_lines(content)[i])
}

/// The value that the last non-empty line naming `name` gives: the text
/// between its first `=` and the next `=` (or the line's end).
pub open spec fn setting(lines: Seq<Seq<char>>, name: Seq<char>) -> Option<Seq<char>>
    decreases lines.len(),
{
    if lines.len() == 0 {
        None
    } else {
        let parts = split(lines.last(), '=');
        if lines.last().len() > 0 && parts.len() >= 2 && parts[0] == name {
            Some(parts[1])
        } else {
            setting(lines.drop_last(), name)
        }
    }
}

/// The value of setting `name` in `content`, or the placeholder.
pub open spec fn setting_or_placeholder(content: Seq<char>, name: Seq<char>) -> Seq<char> {
    match setting(config_lines(content), name) {
        Some(v) => v,
        None => placeholder(),
    }
}

/// The two settings of a run: the identifier of the device to look for and
/// the path of the key file relative to the device's root.
#[derive(Debug)]
pub struct Config {
    pub usb: String,
    pub key: String,
}

/// The text of an optional string.
pub open spec fn opt_view(o: Option<String>) -> Option<Seq<char>> {
    match o {
        Some(s) => Some(s@),
        None => None,
    }
}

impl Config {
    /// Builds a configuration from its two values.
    pub fn new(usb: &str, key: &str) -> (r: Config)
        ensures
            r.usb@ == usb@,
            r.key@ == key@,
    {
        Config { usb: String::from_str(usb), key: String::from_str(key) }
    }

    /// Parses a `KEY=VALUE` text, one pair per line.  Empty lines are
    /// skipped, a later line overrides an earlier one, and an unset value is
    /// the placeholder.  A non-empty line without `=` is an error.
    pub fn from_content(content: &str) -> (r: Result<Config, ExampleError>)
        ensures
            r is Ok <==> content_ok(content@),
            r matches Ok(c) ==> c.usb@ == setting_or_placeholder(content@, usb_field())
                && c.key@ == setting_or_placeholder(content@, key_field()),
    {
        let lines = split_on(content, '\n');
        let ghost ls = lines@.map_values(|p: String| p@);
        let usb_name = String::from_str("USB");
        let key_name = String::from_str("KEY");
        proof {
            reveal_strlit("USB");
            reveal_strlit("KEY");
            assert(usb_name@ =~= usb_field());
            assert(key_name@ =~= key_field());
        }
        let mut usb: Option<String> = None;
        let mut key: Option<String> = None;
        let mut i: usize = 0;
        while i < lines.len()
            invariant
                ls == lines@.map_values(|p: String| p@),
                ls == config_lines(content@),
                usb_name@ == usb_field(),
                key_name@ == key_field(),
                i <= lines.len(),
                forall|j: int| 0 <= j < i ==> #[trigger] line_ok(ls[j]),
                opt_view(usb) == setting(ls.take(i as int), usb_field()),
                opt_view(key) == setting(ls.take(i as int), key_field()),
            decreases lines.len() - i,
        {
            let line = &lines[i];
            proof {
                assert(ls.take(i + 1).drop_last() =~= ls.take(i as int));
                assert(ls.take(i + 1).last() == line@);
            }
            if line.as_str().unicode_len() > 0 {
                let parts = split_on(line.as_str(), '=');
                proof {
                    lemma_split_nonempty(line@, '=');
                    assert(parts@.map_values(|p: String| p@).len() == parts@.len());
                }
                if parts.len() < 2 {
                    proof {
                        assert(!line_ok(ls[i as int]));
                    }
                    return Err(ExampleError::new("a configuration line lacks '='"));
                }
                proof {
                    assert(parts@[0]@ == split(line@, '=')[0]);
                    assert(parts@[1]@ == split(line@, '=')[1]);
                }
                if parts[0] == usb_name {
                    usb = Some(parts[1].clone());
                } else if parts[0] == key_name {
                    key = Some(parts[1].clone());
                }
            }
            i = i + 1;
        }
        proof {
            assert(ls.take(i as int) =~= ls);
        }
        let usb = match usb {
            Some(v) => v,
            None => String::from_str(PLACEHOLDER),
        };
        let key = match key {
            Some(v) => v,
            None => String::from_str(PLACEHOLDER),
        };
        proof {
            reveal_strlit("(null)");
        }
        Ok(Config { usb, key })
    }

    /// The identifier of the device that holds the key.
    pub fn get_usb(&self) -> (r: &String)
        ensures
            r@ == self.usb@,
    {
        &self.usb
    }

    /// The path of the key file, relative to the device's root.
    pub fn get_key(&self) -> (r: &String)
        ensures
            r@ == self.key@,
    {
        &self.key
    }
}

} // verus!
