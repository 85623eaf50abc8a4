use crate::chance::one_in;
use vstd::prelude::*;

verus! {

/// Whether a file may currently be read.
#[derive(Debug, Clone, Copy, PartialEq, Eq, Structural)]
pub enum FileState {
    Open,
    Closed,
}

/// The text that names a state.
pub open spec fn state_label(s: FileState) -> Seq<char> {
    match s {
        FileState::Open => "OPEN"@,
        FileState::Closed => "CLOSED"@,
    }
}

impl FileState {
    /// The state as upper-case text: `OPEN` or `CLOSED`.
    pub fn label(&self) -> (r: String)
        ensures
            r@ == state_label(*self),
    {
        match self {
            FileState::Open => String::from_str("OPEN"),
            FileState::Closed => String::from_str("CLOSED"),
        }
    }
}

/// The abstract value of a `File`: its name, its content and its state.
pub struct FileView {
    pub name: Seq<char>,
    pub data: Seq<u8>,
    pub state: FileState,
}

/// A named byte buffer that must be opened before it can be read.
#[derive(Debug)]
pub struct File {
    name: String,
    data: Vec<u8>,
    state: FileState,
}

impl View for File {
    type V = FileView;

    closed spec fn view(&self) -> FileView {
        FileView { name: self.name@, data: self.data@, state: self.state }
    }
}

/// `open` fails about once in this many calls.
pub const OPEN_FAILURE_ODDS: u32 = 10_000;

/// `close` fails about once in this many calls.
pub const CLOSE_FAILURE_ODDS: u32 = 100_000;

/// The error of a failed `open`.
pub open spec fn permission_denied() -> Seq<char> {
    "Permission denied"@
}

/// The error of a failed `close`.
pub open spec fn interrupted_by_signal() -> Seq<char> {
    "Interrupted by signal"@
}

/// The error of a `read` on a file that is not open.
pub open spec fn not_open_for_reading() -> Seq<char> {
    "File must be open for reading"@
}

/// A freshly made file: the given name and content, closed.
pub open spec fn created(name: Seq<char>, data: Seq<u8>) -> FileView {
    FileView { name, data, state: FileState::Closed }
}

/// The same file in state `s`: name and content are kept.
pub open spec fn with_state(v: FileView, s: FileState) -> FileView {
    FileView { name: v.name, data: v.data, state: s }
}

/// A file may be read exactly when it is open.
pub open spec fn readable(v: FileView) -> bool {
    v.state == FileState::Open
}

/// The destination buffer after reading `v` into `buf`: the whole content is
/// appended when the file is open, and nothing changes otherwise.
pub open spec fn read_into(v: FileView, buf: Seq<u8>) -> Seq<u8> {
    if readable(v) {
        buf + v.data
    } else {
        buf
    }
}

/// The file after the successful transitions `steps`, taken in order.
pub open spec fn after_transitions(v: FileView, steps: Seq<FileState>) -> FileView
    decreases steps.len(),
{
    if steps.len() == 0 {
        v
    } else {
        with_state(after_transitions(v, steps.drop_last()), steps.last())
    }
}

impl File {
    /// Creates an empty, closed file with the given name.
    pub fn new(name: &str) -> (f: File)
        ensures
            f@ == created(name@, Seq::empty()),
    {
        File { name: String::from_str(name), data: Vec::new(), state: FileState::Closed }
    }

    /// Creates a closed file with the given name that holds a copy of `data`.
    pub fn new_with_data(name: &str, data: &Vec<u8>) -> (f: File)
        ensures
            f@ == created(name@, data@),
    {
        let mut f = File::new(name);
        f.data = data.clone();
        f
    }

    /// Appends the whole content to `save_to` and returns its length; fails,
    /// leaving `save_to` as it was, unless the file is open.
    pub fn read(&self, save_to: &mut Vec<u8>) -> (r: Result<usize, String>)
        requires
            old(save_to)@.len() + self@.data.len() <= isize::MAX,
        ensures
            final(save_to)@ == read_into(self@, old(save_to)@),
            readable(self@) ==> r == Ok::<usize, String>(self@.data.len() as usize),
            !readable(self@) ==> (r matches Err(e) && e@ == not_open_for_reading()),
    {
        if self.state != FileState::Open {
            return Err(String::from_str("File must be open for reading"));
        }
        let mut temp = self.data.clone();
        let read_length = temp.len();
        save_to.reserve(read_length);
        save_to.append(&mut temp);
        Ok(read_length)
    }

    /// A short description of the file: its name and state between angle
    /// brackets, as in `<notes.txt OPEN>`.
    pub fn describe(&self) -> (r: String)
        ensures
            r@ == "<"@ + self@.name + " "@ + state_label(self@.state) + ">"@,
    {
        let label = self.state.label();
        let r = String::from_str("<");
        let r = r.concat(self.name.as_str());
        let r = r.concat(" ");
        let r = r.concat(label.as_str());
        r.concat(">")
    }

    /// The length of the content in bytes.
    pub fn len(&self) -> (r: usize)
        ensures
            r == self@.data.len(),
    {
        self.data.len()
    }

    /// A copy of the name the file was made with.
    pub fn name(&self) -> (r: String)
        ensures
            r@ == self@.name,
    {
        self.name.clone()
    }
}

/// Opens `f` unless `fault` is set, in which case the open is refused.
pub fn open_with_fault(f: File, fault: bool) -> (r: Result<File, String>)
    ensures
        fault ==> (r matches Err(e) && e@ == permission_denied()),
        !fault ==> (r matches Ok(g) && g@ == with_state(f@, FileState::Open)),
{
    if fault {
        return Err(String::from_str("Permission denied"));
    }
    let mut f = f;
    f.state = FileState::Open;
    Ok(f)
}

/// Closes `f` unless `fault` is set, in which case the close is interrupted.
pub fn close_with_fault(f: File, fault: bool) -> (r: Result<File, String>)
    ensures
        fault ==> (r matches Err(e) && e@ == interrupted_by_signal()),
        !fault ==> (r matches Ok(g) && g@ == with_state(f@, FileState::Closed)),
{
    if fault {
        return Err(String::from_str("Interrupted by signal"));
    }
    let mut f = f;
    f.state = FileState::Closed;
    Ok(f)
}

/// Opens `f`, whatever its state; about one call in `OPEN_FAILURE_ODDS` fails
/// at random with a permission error, and `f` is then lost.
pub fn open(f: File) -> (r: Result<File, String>)
    ensures
        r matches Ok(g) ==> g@ == with_state(f@, FileState::Open),
        r matches Err(e) ==> e@ == permission_denied(),
{
    let fault = one_in(OPEN_FAILURE_ODDS);
    open_with_fault(f, fault)
}

/// Closes `f`, whatever its state; about one call in `CLOSE_FAILURE_ODDS`
/// fails at random with an interruption, and `f` is then lost.
pub fn close(f: File) -> (r: Result<File, String>)
    ensures
        r matches Ok(g) ==> g@ == with_state(f@, FileState::Closed),
        r matches Err(e) ==> e@ == interrupted_by_signal(),
{
    let fault = one_in(CLOSE_FAILURE_ODDS);
    close_with_fault(f, fault)
}

/// A file made with content `d` and then opened reads back exactly `d`: into an
/// empty buffer the read succeeds, the buffer ends equal to `d` and the count
/// returned is the length of `d`.
pub proof fn lemma_read_after_open_yields_content(name: Seq<char>, d: Seq<u8>)
    ensures
        readable(with_state(created(name, d), FileState::Open)),
        read_into(with_state(created(name, d), FileState::Open), Seq::empty()) == d,
        with_state(created(name, d), FileState::Open).data.len() == d.len(),
{
    assert(Seq::<u8>::empty() + d =~= d);
}

/// Reading a closed file always fails and leaves the buffer untouched,
/// whatever the file holds.
pub proof fn lemma_closed_file_is_unreadable(v: FileView, buf: Seq<u8>)
    requires
        v.state == FileState::Closed,
    ensures
        !readable(v),
        read_into(v, buf) == buf,
{
}

/// The length of a file made with content `d` is the length of `d`, before
/// and after any run of successful transitions.
pub proof fn lemma_transitions_keep_length(name: Seq<char>, d: Seq<u8>, steps: Seq<FileState>)
    ensures
        created(name, d).data.len() == d.len(),
        after_transitions(created(name, d), steps).data.len() == d.len(),
    decreases steps.len(),
{
    if steps.len() > 0 {
        lemma_transitions_keep_length(name, d, steps.drop_last());
    }
}

/// The name of a file is the one it was made with, before and after any run of
/// successful transitions.
pub proof fn lemma_transitions_keep_name(name: Seq<char>, d: Seq<u8>, steps: Seq<FileState>)
    ensures
        created(name, d).name == name,
        after_transitions(created(name, d), steps).name == name,
    decreases steps.len(),
{
    if steps.len() > 0 {
        lemma_transitions_keep_name(name, d, steps.drop_last());
    }
}

} // verus!
