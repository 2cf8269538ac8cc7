use vstd::prelude::*;
use vstd::string::*;

use crate::change_type::{ChangeType, DeltaStatus, change_type_of, change_type_text};

verus! {

/// The text shown for a change whose contents are empty or absent.
pub const NULL_CHANGES_CONSTANT: &'static str = "---[NULL]---";

/// The error type of the `git2` crate.
#[verifier::external_type_specification]
#[verifier::external_body]
pub struct ExGit2Error(git2::Error);

/// One change that a commit makes to one file.
pub struct Change {
    line_contents: Option<String>,
    change_type: ChangeType,
    old_file_size: Option<usize>,
    new_file_size: Option<usize>,
    old_file_path: Option<String>,
    new_file_path: Option<String>,
}

/// What a `Change` holds, as mathematical values.
pub struct ChangeView {
    pub line_contents: Option<Seq<char>>,
    pub change_type: ChangeType,
    pub old_file_size: Option<usize>,
    pub new_file_size: Option<usize>,
    pub old_file_path: Option<Seq<char>>,
    pub new_file_path: Option<Seq<char>>,
}

/// The text of an optional string.
pub open spec fn opt_text(s: Option<String>) -> Option<Seq<char>> {
    match s {
        Some(t) => Some(t@),
        None => None,
    }
}

impl View for Change {
    type V = ChangeView;

    closed spec fn view(&self) -> ChangeView {
        ChangeView {
            line_contents: opt_text(self.line_contents),
            change_type: self.change_type,
            old_file_size: self.old_file_size,
            new_file_size: self.new_file_size,
            old_file_path: opt_text(self.old_file_path),
            new_file_path: opt_text(self.new_file_path),
        }
    }
}

/// A fresh change: empty contents and the change type mapped from `status`.
pub open spec fn new_change_view(
    status: DeltaStatus,
    old_file_size: Option<usize>,
    new_file_size: Option<usize>,
    old_file_path: Option<Seq<char>>,
    new_file_path: Option<Seq<char>>,
) -> ChangeView {
    ChangeView {
        line_contents: Some(Seq::empty()),
        change_type: change_type_of(status),
        old_file_size,
        new_file_size,
        old_file_path,
        new_file_path,
    }
}

/// `c` with `line` added at the end of its contents (when it has contents).
pub open spec fn appended(c: ChangeView, line: Seq<char>) -> ChangeView {
    ChangeView {
        line_contents: match c.line_contents {
            Some(t) => Some(t + line),
            None => None,
        },
        ..c
    }
}

/// The contents shown for a change: its contents, or the null marker when
/// they are empty or absent.
pub open spec fn shown_contents(c: ChangeView) -> Seq<char> {
    match c.line_contents {
        Some(t) => if t.len() == 0 {
            NULL_CHANGES_CONSTANT@
        } else {
            t
        },
        None => NULL_CHANGES_CONSTANT@,
    }
}

/// How a change is shown.
pub open spec fn change_text(c: ChangeView) -> Seq<char> {
    "CHANGE TYPE: "@ + change_type_text(c.change_type) + "\n\n"@ + "CHANGE CONTENTS:\n"@
        + shown_contents(c) + "\n"@
}

/// Appending one text and then another is appending the two together.
pub proof fn law_append_concat(c: ChangeView, a: Seq<char>, b: Seq<char>)
    ensures
        appended(appended(c, a), b) == appended(c, a + b),
{
    match c.line_contents {
        Some(t) => {
            assert(t + a + b =~= t + (a + b));
        },
        None => {},
    }
}

/// A new change holds empty contents, the change type its status maps to,
/// and the sizes and paths it was given, each in its own place.
pub proof fn law_new_change_fields(
    status: DeltaStatus,
    old_file_size: Option<usize>,
    new_file_size: Option<usize>,
    old_file_path: Option<Seq<char>>,
    new_file_path: Option<Seq<char>>,
)
    ensures
        ({
            let c = new_change_view(status, old_file_size, new_file_size, old_file_path, new_file_path);
            &&& c.line_contents == Some(Seq::<char>::empty())
            &&& c.change_type == change_type_of(status)
            &&& c.old_file_size == old_file_size
            &&& c.new_file_size == new_file_size
            &&& c.old_file_path == old_file_path
            &&& c.new_file_path == new_file_path
        }),
{
}

/// A change is shown as its type's name and then its whole contents when it
/// has non-empty contents, and the null marker otherwise.
pub proof fn law_change_text_shows_whole_contents(c: ChangeView, t: Seq<char>)
    ensures
        c.line_contents == Some(t) && t.len() > 0 ==> change_text(c) == "CHANGE TYPE: "@
            + change_type_text(c.change_type) + "\n\nCHANGE CONTENTS:\n"@ + t + "\n"@,
        (c.line_contents is None || c.line_contents == Some(Seq::<char>::empty())) ==> change_text(c)
            == "CHANGE TYPE: "@ + change_type_text(c.change_type) + "\n\nCHANGE CONTENTS:\n"@
            + NULL_CHANGES_CONSTANT@ + "\n"@,
{
    let head = "CHANGE TYPE: "@ + change_type_text(c.change_type);
    reveal_strlit("\n\n");
    reveal_strlit("CHANGE CONTENTS:\n");
    reveal_strlit("\n\nCHANGE CONTENTS:\n");
    assert("\n\n"@ + "CHANGE CONTENTS:\n"@ =~= "\n\nCHANGE CONTENTS:\n"@);
    match c.line_contents {
        Some(u) => {
            assert(change_text(c) =~= head + ("\n\n"@ + "CHANGE CONTENTS:\n"@) + shown_contents(c) + "\n"@);
        },
        None => {
            assert(change_text(c) =~= head + ("\n\n"@ + "CHANGE CONTENTS:\n"@) + shown_contents(c) + "\n"@);
        },
    }
}

/// No public operation makes a change's contents absent: a new change has
/// (empty) contents, and appending a line, setting a path or setting a size
/// keep contents that are present.
pub proof fn law_contents_stay_present(
    c: ChangeView,
    status: DeltaStatus,
    old_file_size: Option<usize>,
    new_file_size: Option<usize>,
    old_file_path: Option<Seq<char>>,
    new_file_path: Option<Seq<char>>,
    line: Seq<char>,
    path: Option<Seq<char>>,
    size: Option<usize>,
)
    ensures
        new_change_view(status, old_file_size, new_file_size, old_file_path, new_file_path).line_contents
            == Some(Seq::<char>::empty()),
        c.line_contents is Some ==> {
            &&& appended(c, line).line_contents is Some
            &&& (ChangeView { old_file_path: path, ..c }).line_contents is Some
            &&& (ChangeView { new_file_path: path, ..c }).line_contents is Some
            &&& (ChangeView { old_file_size: size, ..c }).line_contents is Some
            &&& (ChangeView { new_file_size: size, ..c }).line_contents is Some
        },
{
}

impl Change {
    pub fn new(
        delta_enum: DeltaStatus,
        old_file_size: Option<usize>,
        new_file_size: Option<usize>,
        old_file_path: Option<String>,
        new_file_path: Option<String>,
    ) -> (r: Self)
        ensures
            r@ == new_change_view(
                delta_enum,
                old_file_size,
                new_file_size,
                opt_text(old_file_path),
                opt_text(new_file_path),
            ),
    {
        let change_type = Self::enum_from_delta(delta_enum);
        Self {
            line_contents: Some(String::new()),
            change_type,
            old_file_size,
            new_file_size,
            old_file_path,
            new_file_path,
        }
    }

    pub fn line_contents(&self) -> (r: Option<&String>)
        ensures
            match r {
                Some(s) => self@.line_contents == Some(s@),
                None => self@.line_contents is None,
            },
    {
        if let Some(contents) = &self.line_contents {
            Some(contents)
        } else {
            None
        }
    }

    pub fn append_line_contents(&mut self, line: &str) -> (r: Result<(), git2::Error>)
        ensures
            r is Ok,
            final(self)@ == appended(old(self)@, line@),
    {
        if let Some(contents) = &mut self.line_contents {
            contents.append(line);
        }
        Ok(())
    }

    pub fn update_old_file_path(&mut self, file_path: Option<String>)
        ensures
            final(self)@ == (ChangeView { old_file_path: opt_text(file_path), ..old(self)@ }),
    {
        self.old_file_path = file_path
    }

    pub fn update_new_file_path(&mut self, file_path: Option<String>)
        ensures
            final(self)@ == (ChangeView { new_file_path: opt_text(file_path), ..old(self)@ }),
    {
        self.new_file_path = file_path
    }

    pub fn update_old_file_size(&mut self, file_size: Option<usize>)
        ensures
            final(self)@ == (ChangeView { old_file_size: file_size, ..old(self)@ }),
    {
        self.old_file_size = file_size
    }

    pub fn update_new_file_size(&mut self, file_size: Option<usize>)
        ensures
            final(self)@ == (ChangeView { new_file_size: file_size, ..old(self)@ }),
    {
        self.new_file_size = file_size
    }

    /// A copy of this change.
    pub fn duplicate(&self) -> (r: Change)
        ensures
            r@ == self@,
    {
        Change {
            line_contents: self.line_contents.clone(),
            change_type: self.change_type,
            old_file_size: self.old_file_size,
            new_file_size: self.new_file_size,
            old_file_path: self.old_file_path.clone(),
            new_file_path: self.new_file_path.clone(),
        }
    }

    fn enum_from_delta(delta_enum: DeltaStatus) -> (r: ChangeType)
        ensures
            r == change_type_of(delta_enum),
    {
        ChangeType::from(delta_enum)
    }

    /// How this change is shown: its type, then its contents (or the null
    /// marker when they are empty or absent).
    pub fn to_display_string(&self) -> (r: String)
        ensures
            r@ == change_text(self@),
    {
        let mut out = String::from_str("CHANGE TYPE: ");
        let kind_text = self.change_type.to_display_string();
        out.append(kind_text.as_str());
        out.append("\n\n");
        out.append("CHANGE CONTENTS:\n");
        match &self.line_contents {
            Some(contents) => {
                if contents.as_str().is_empty() {
                    out.append(NULL_CHANGES_CONSTANT);
                } else {
                    out.append(contents.as_str());
                }
            },
            None => {
                out.append(NULL_CHANGES_CONSTANT);
            },
        }
        out.append("\n");
        out
    }
}

} // verus!
