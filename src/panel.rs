//! State of the backend side panel, kept across sessions: whether the panel
//! is open, the password field, and the plugin files picked or dropped.
use vstd::prelude::*;

verus! {

/// Decimal digits of `n`, most significant first, without leading zeros.
pub open spec fn decimal(n: nat) -> Seq<char>
    decreases n,
{
    if n < 10 {
        seq![digit_char(n)]
    } else {
        decimal(n / 10).push(digit_char(n % 10))
    }
}

/// The character of a decimal digit.
pub open spec fn digit_char(d: nat) -> char {
    if d == 0 { '0' }
    else if d == 1 { '1' }
    else if d == 2 { '2' }
    else if d == 3 { '3' }
    else if d == 4 { '4' }
    else if d == 5 { '5' }
    else if d == 6 { '6' }
    else if d == 7 { '7' }
    else if d == 8 { '8' }
    else { '9' }
}

/// Relies on `ToString` for `usize`, which formats through `Display`: the
/// decimal digits, without sign or leading zeros.
#[verifier::external_body]
fn usize_text(n: usize) -> (r: String)
    ensures
        r@ == decimal(n as nat),
{
    n.to_string()
}

/// What the panel knows of one plugin file: its path when the platform
/// gives one, its name, its media type (possibly empty) and its size when
/// the bytes came with it.
pub struct DroppedFileInfo {
    pub path: Option<String>,
    pub name: String,
    pub mime: String,
    pub byte_len: Option<usize>,
}

/// The main part of a file's label: its path, else its name, else `???`.
pub open spec fn label_head(f: DroppedFileInfo) -> Seq<char> {
    match f.path {
        Some(p) => p@,
        None => if f.name@.len() > 0 { f.name@ } else { "???"@ },
    }
}

/// The details of a file's label: its type when known, its size when known.
pub open spec fn label_details(f: DroppedFileInfo) -> Seq<Seq<char>> {
    let t = if f.mime@.len() > 0 { seq!["type: "@ + f.mime@] } else { Seq::empty() };
    match f.byte_len {
        Some(n) => t.push(decimal(n as nat) + " bytes"@),
        None => t,
    }
}

/// The label shown for a file: the head, then the details in parentheses,
/// separated by `, `, when there are any.
pub open spec fn label_text(f: DroppedFileInfo) -> Seq<char> {
    let d = label_details(f);
    if d.len() == 0 {
        label_head(f)
    } else if d.len() == 1 {
        label_head(f) + " ("@ + d[0] + ")"@
    } else {
        label_head(f) + " ("@ + d[0] + ", "@ + d[1] + ")"@
    }
}

/// The label shown for a file in the plugin list.
pub fn file_label(f: &DroppedFileInfo) -> (r: String)
    ensures
        r@ == label_text(*f),
{
    let head = match &f.path {
        Some(p) => p.clone(),
        None => if !f.name.as_str().is_empty() {
            f.name.clone()
        } else {
            String::from_str("???")
        },
    };
    let mut details: Vec<String> = Vec::new();
    if !f.mime.as_str().is_empty() {
        details.push(String::from_str("type: ").concat(f.mime.as_str()));
    }
    if let Some(n) = f.byte_len {
        details.push(usize_text(n).concat(" bytes"));
    }
    let ghost d = label_details(*f);
    assert(details@.len() == d.len());
    if details.len() == 0 {
        head
    } else if details.len() == 1 {
        head.concat(" (").concat(details[0].as_str()).concat(")")
    } else {
        head.concat(" (").concat(details[0].as_str()).concat(", ").concat(
            details[1].as_str(),
        ).concat(")")
    }
}

/// The plugin files the panel lists, and the name of the last one picked.
pub struct FileDialog {
    pub dropped_files: Vec<DroppedFileInfo>,
    pub picked_path: Option<String>,
}

impl FileDialog {
    /// Nothing picked, nothing listed.
    pub fn new() -> (r: FileDialog)
        ensures
            r.dropped_files@.len() == 0,
            r.picked_path is None,
    {
        FileDialog { dropped_files: Vec::new(), picked_path: None }
    }

    /// Records a file picked through the dialog, known by its stem: it
    /// becomes the picked name and joins the list. Returns the name under
    /// which its bytes go to the plugin loader.
    pub fn record_pick(&mut self, stem: String) -> (name: String)
        ensures
            final(self).picked_path == Some(stem),
            final(self).dropped_files@.len() == old(self).dropped_files@.len() + 1,
            final(self).dropped_files@.drop_last() == old(self).dropped_files@,
            final(self).dropped_files@.last().path is None,
            final(self).dropped_files@.last().name@ == stem@,
            final(self).dropped_files@.last().mime@.len() == 0,
            final(self).dropped_files@.last().byte_len is None,
            name@ == stem@,
    {
        let name = stem.clone();
        self.dropped_files.push(
            DroppedFileInfo {
                path: None,
                name: stem.clone(),
                mime: String::new(),
                byte_len: None,
            },
        );
        self.picked_path = Some(stem);
        assert(self.dropped_files@.drop_last() =~= old(self).dropped_files@);
        name
    }

    /// Takes the files dropped onto the window in this frame: a non-empty
    /// drop replaces the list, an empty one leaves it.
    pub fn collect_dropped(&mut self, files: Vec<DroppedFileInfo>)
        ensures
            files@.len() > 0 ==> final(self).dropped_files@ == files@,
            files@.len() == 0 ==> final(self).dropped_files@ == old(self).dropped_files@,
            final(self).picked_path == old(self).picked_path,
    {
        if files.len() > 0 {
            self.dropped_files = files;
        }
    }

    /// The labels of the listed files, in list order.
    pub fn labels(&self) -> (r: Vec<String>)
        ensures
            r@.len() == self.dropped_files@.len(),
            forall|i: int| 0 <= i < r@.len() ==> #[trigger] r@[i]@ == label_text(self.dropped_files@[i]),
    {
        let mut out: Vec<String> = Vec::new();
        let n = self.dropped_files.len();
        let mut i: usize = 0;
        while i < n
            invariant
                n == self.dropped_files@.len(),
                i <= n,
                out@.len() == i,
                forall|k: int| 0 <= k < i ==> #[trigger] out@[k]@ == label_text(self.dropped_files@[k]),
            decreases n - i,
        {
            out.push(file_label(&self.dropped_files[i]));
            i = i + 1;
        }
        out
    }
}

/// The backend side panel: open or closed, the password field, the files.
pub struct BackendPanel {
    pub open: bool,
    pub password: String,
    pub file_dialog: FileDialog,
}

impl Default for BackendPanel {
    /// Closed, with the placeholder password and no files.
    fn default() -> (r: BackendPanel)
        ensures
            !r.open,
            r.password@ == "default password"@,
            r.file_dialog.dropped_files@.len() == 0,
            r.file_dialog.picked_path is None,
    {
        BackendPanel {
            open: false,
            password: String::from_str("default password"),
            file_dialog: FileDialog::new(),
        }
    }
}

/// What the application keeps across sessions.
pub struct State {
    pub backend_panel: BackendPanel,
}

impl Default for State {
    /// The panel as it starts.
    fn default() -> (r: State)
        ensures
            !r.backend_panel.open,
            r.backend_panel.password@ == "default password"@,
            r.backend_panel.file_dialog.dropped_files@.len() == 0,
            r.backend_panel.file_dialog.picked_path is None,
    {
        State { backend_panel: BackendPanel::default() }
    }
}

} // verus!
