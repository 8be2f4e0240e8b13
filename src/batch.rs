use crate::format::Format;
use crate::path::{file_name, format_of_path, get_file_name, join, join_path, path_format};
use vstd::prelude::*;

verus! {

/// Where the images come from.
#[derive(Debug)]
pub enum Input {
    /// Standard input: one anonymous stream.
    Stdin,
    /// A file, or a directory whose files are each an input.
    FileOrDir(String),
}

/// Where the sketches go.
#[derive(Debug)]
pub enum Output {
    /// Standard output: one anonymous stream.
    Stdout,
    /// A file, or a directory that receives one file per input.
    FileOrDir(String),
}

/// Why an input and an output cannot be paired up.
#[derive(Clone, Copy, Debug, PartialEq, Eq, Structural)]
pub enum IOIteratorError {
    /// Several inputs would be written to one output.
    MultiToSingle,
    /// The input is a stream, so nothing names its file in an output directory.
    UnknownFileName,
    /// The input's format is neither given nor named by its extension.
    UnknownInputFormat,
    /// The output's format is neither given nor named by its extension.
    UnknownOutputFormat,
}

/// One entry of the input directory, as the file system lists it.
#[derive(Debug)]
pub struct DirEntry {
    pub path: String,
    pub is_dir: bool,
}

/// What the file system shows of the input and output paths: whether each is
/// a directory, and the entries of the input directory.
#[derive(Debug)]
pub struct Layout {
    pub input_is_dir: bool,
    pub output_is_dir: bool,
    pub entries: Vec<DirEntry>,
}

/// One unit of work: read `input` (standard input where `None`) in
/// `input_format`, write to `output` (standard output where `None`) in
/// `output_format`. `file_name` names a file-backed input.
#[derive(Debug)]
pub struct WorkItem {
    pub input: Option<String>,
    pub output: Option<String>,
    pub input_format: Format,
    pub output_format: Format,
    pub file_name: Option<String>,
}

/// A work item with its strings seen as sequences of characters.
pub struct WorkItemView {
    pub input: Option<Seq<char>>,
    pub output: Option<Seq<char>>,
    pub input_format: Format,
    pub output_format: Format,
    pub file_name: Option<Seq<char>>,
}

/// An optional string seen as an optional sequence of characters.
pub open spec fn opt_view(s: Option<String>) -> Option<Seq<char>> {
    match s {
        Some(v) => Some(v@),
        None => None,
    }
}

impl View for WorkItem {
    type V = WorkItemView;

    open spec fn view(&self) -> WorkItemView {
        WorkItemView {
            input: opt_view(self.input),
            output: opt_view(self.output),
            input_format: self.input_format,
            output_format: self.output_format,
            file_name: opt_view(self.file_name),
        }
    }
}

/// A given format, else the one found.
pub open spec fn given_or(given: Option<Format>, found: Format) -> Format {
    match given {
        Some(f) => f,
        None => found,
    }
}

/// A stream needs its format given: there is no extension to read it from.
pub open spec fn hint_check(
    i: Input,
    o: Output,
    input_format: Option<Format>,
    output_format: Option<Format>,
) -> Result<(), IOIteratorError> {
    if i is Stdin && input_format.is_none() {
        Err(IOIteratorError::UnknownInputFormat)
    } else if o is Stdout && output_format.is_none() {
        Err(IOIteratorError::UnknownOutputFormat)
    } else {
        Ok(())
    }
}

/// An input directory needs an output directory, and an output directory
/// needs named inputs.
pub open spec fn cardinality_check(
    i: Input,
    o: Output,
    input_is_dir: bool,
    output_is_dir: bool,
) -> Result<(), IOIteratorError> {
    if i is FileOrDir && input_is_dir && !(o is FileOrDir && output_is_dir) {
        Err(IOIteratorError::MultiToSingle)
    } else if i is Stdin && o is FileOrDir && output_is_dir {
        Err(IOIteratorError::UnknownFileName)
    } else {
        Ok(())
    }
}

/// Whether an entry of the input directory is an input: a file whose
/// extension names a known format.
pub open spec fn is_image_file(e: DirEntry) -> bool {
    !e.is_dir && path_format(e.path@).is_some()
}

/// The work for one file of the input directory.
pub open spec fn dir_item(
    e: DirEntry,
    out_dir: Seq<char>,
    input_format: Option<Format>,
    output_format: Option<Format>,
) -> WorkItemView {
    let own = path_format(e.path@).unwrap();
    WorkItemView {
        input: Some(e.path@),
        output: Some(join(out_dir, file_name(e.path@))),
        input_format: given_or(input_format, own),
        output_format: given_or(output_format, own),
        file_name: Some(file_name(e.path@)),
    }
}

/// The work for a directory: one item per image file, in listing order.
pub open spec fn dir_items(
    entries: Seq<DirEntry>,
    out_dir: Seq<char>,
    input_format: Option<Format>,
    output_format: Option<Format>,
) -> Seq<WorkItemView> {
    image_files(entries).map_values(|e: DirEntry| dir_item(e, out_dir, input_format, output_format))
}

/// The inputs of a directory listing, in listing order.
pub open spec fn image_files(entries: Seq<DirEntry>) -> Seq<DirEntry> {
    entries.filter(|e: DirEntry| is_image_file(e))
}

/// The output of a single input named `name`, whose extension names `own`:
/// its path (`None` for standard output) and its format. A file written into
/// an output directory keeps the input's name, so its format, unless given,
/// is the one that name's extension names.
pub open spec fn single_target(
    o: Output,
    output_format: Option<Format>,
    output_is_dir: bool,
    name: Seq<char>,
    own: Option<Format>,
) -> Result<(Option<Seq<char>>, Format), IOIteratorError> {
    match o {
        Output::Stdout => Ok((None, output_format.unwrap())),
        Output::FileOrDir(q) => if output_is_dir {
            if output_format.is_some() {
                Ok((Some(join(q@, name)), output_format.unwrap()))
            } else if own.is_some() {
                Ok((Some(join(q@, name)), own.unwrap()))
            } else {
                Err(IOIteratorError::UnknownOutputFormat)
            }
        } else if output_format.is_some() {
            Ok((Some(q@), output_format.unwrap()))
        } else if path_format(q@).is_some() {
            Ok((Some(q@), path_format(q@).unwrap()))
        } else {
            Err(IOIteratorError::UnknownOutputFormat)
        },
    }
}

/// The plan for one input: a stream (`None`) or a file.
pub open spec fn single_plan(
    input: Option<Seq<char>>,
    o: Output,
    input_format: Option<Format>,
    output_format: Option<Format>,
    output_is_dir: bool,
) -> Result<Seq<WorkItemView>, IOIteratorError> {
    let found = match input {
        Some(p) => path_format(p),
        None => None,
    };
    if input_format.is_none() && found.is_none() {
        Err(IOIteratorError::UnknownInputFormat)
    } else {
        let f = given_or(input_format, found.unwrap());
        let name = match input {
            Some(p) => Some(file_name(p)),
            None => None,
        };
        match single_target(o, output_format, output_is_dir, name.unwrap_or(Seq::empty()), found) {
            Ok(t) => Ok(
                seq![
                    WorkItemView {
                        input,
                        output: t.0,
                        input_format: f,
                        output_format: t.1,
                        file_name: name,
                    },
                ],
            ),
            Err(e) => Err(e),
        }
    }
}

/// The ordered work that an input and an output resolve to, given what the
/// file system shows of them, or why they do not resolve.
pub open spec fn plan(
    i: Input,
    o: Output,
    input_format: Option<Format>,
    output_format: Option<Format>,
    input_is_dir: bool,
    output_is_dir: bool,
    entries: Seq<DirEntry>,
) -> Result<Seq<WorkItemView>, IOIteratorError> {
    if hint_check(i, o, input_format, output_format) is Err {
        Err(hint_check(i, o, input_format, output_format)->Err_0)
    } else if cardinality_check(i, o, input_is_dir, output_is_dir) is Err {
        Err(cardinality_check(i, o, input_is_dir, output_is_dir)->Err_0)
    } else {
        match i {
            Input::Stdin => single_plan(None, o, input_format, output_format, output_is_dir),
            Input::FileOrDir(p) => if input_is_dir {
                dir_plan(o, entries, input_format, output_format)
            } else {
                single_plan(Some(p@), o, input_format, output_format, output_is_dir)
            },
        }
    }
}

/// The plan for an input directory, whose output is a directory too.
pub open spec fn dir_plan(
    o: Output,
    entries: Seq<DirEntry>,
    input_format: Option<Format>,
    output_format: Option<Format>,
) -> Result<Seq<WorkItemView>, IOIteratorError> {
    match o {
        Output::FileOrDir(q) => Ok(dir_items(entries, q@, input_format, output_format)),
        Output::Stdout => Err(IOIteratorError::MultiToSingle),
    }
}

/// Work items seen as their views.
pub open spec fn items_view(v: Seq<WorkItem>) -> Seq<WorkItemView> {
    v.map_values(|w: WorkItem| w@)
}

/// A resolved list of work items, or the error, seen through the items' views.
pub open spec fn vec_result_view(r: Result<Vec<WorkItem>, IOIteratorError>) -> Result<
    Seq<WorkItemView>,
    IOIteratorError,
> {
    match r {
        Ok(v) => Ok(items_view(v@)),
        Err(e) => Err(e),
    }
}

/// A resolved plan, or the error, seen through the plan's view.
pub open spec fn io_result_view(r: Result<IO, IOIteratorError>) -> Result<
    Seq<WorkItemView>,
    IOIteratorError,
> {
    match r {
        Ok(io) => Ok(io@),
        Err(e) => Err(e),
    }
}

/// The resolved, ordered work of one run.
#[derive(Debug)]
pub struct IO {
    items: Vec<WorkItem>,
}

impl View for IO {
    type V = Seq<WorkItemView>;

    closed spec fn view(&self) -> Seq<WorkItemView> {
        items_view(self.items@)
    }
}

/// Walks the work of an [`IO`] one item at a time.
#[derive(Debug)]
pub struct IOIterator<'a> {
    io: &'a IO,
    counter: usize,
}

impl<'a> IOIterator<'a> {
    /// The whole plan walked.
    pub closed spec fn plan(&self) -> Seq<WorkItemView> {
        self.io@
    }

    /// How many items have been handed out.
    pub closed spec fn position(&self) -> nat {
        self.counter as nat
    }

    /// Hands out the next item of the plan, or `None` once all have been.
    pub fn next(&mut self) -> (r: Option<&'a WorkItem>)
        ensures
            final(self).plan() == old(self).plan(),
            old(self).position() < old(self).plan().len() ==> {
                &&& r is Some
                &&& r.unwrap()@ == old(self).plan()[old(self).position() as int]
                &&& final(self).position() == old(self).position() + 1
            },
            old(self).position() >= old(self).plan().len() ==> {
                &&& r is None
                &&& final(self).position() == old(self).position()
            },
    {
        if self.counter < self.io.items.len() {
            let item = &self.io.items[self.counter];
            self.counter = self.counter + 1;
            Some(item)
        } else {
            None
        }
    }
}

/// One more entry of a listing adds its work item where it is an image file, and nothing otherwise.
proof fn lemma_dir_items_step(
    entries: Seq<DirEntry>,
    k: int,
    out_dir: Seq<char>,
    input_format: Option<Format>,
    output_format: Option<Format>,
)
    requires
        0 <= k < entries.len(),
    ensures
        dir_items(entries.take(k + 1), out_dir, input_format, output_format) == if is_image_file(
            entries[k],
        ) {
            dir_items(entries.take(k), out_dir, input_format, output_format).push(
                dir_item(entries[k], out_dir, input_format, output_format),
            )
        } else {
            dir_items(entries.take(k), out_dir, input_format, output_format)
        },
{
    reveal(Seq::filter);
    let s = entries.take(k + 1);
    assert(s.drop_last() =~= entries.take(k));
    assert(s.last() == entries[k]);
    if is_image_file(entries[k]) {
        assert(dir_items(s, out_dir, input_format, output_format) =~= dir_items(
            entries.take(k),
            out_dir,
            input_format,
            output_format,
        ).push(dir_item(entries[k], out_dir, input_format, output_format)));
    } else {
        assert(dir_items(s, out_dir, input_format, output_format) =~= dir_items(
            entries.take(k),
            out_dir,
            input_format,
            output_format,
        ));
    }
}

/// The work for an input directory: one item per image file, written under
/// the same name into the output directory.
fn resolve_dir(
    entries: &Vec<DirEntry>,
    out_dir: &String,
    input_format: Option<Format>,
    output_format: Option<Format>,
) -> (r: Vec<WorkItem>)
    ensures
        items_view(r@) == dir_items(entries@, out_dir@, input_format, output_format),
{
    let mut items: Vec<WorkItem> = Vec::new();
    let mut k: usize = 0;
    assert(items_view(items@) =~= dir_items(entries@.take(0), out_dir@, input_format, output_format)) by {
        reveal(Seq::filter);
    }
    while k < entries.len()
        invariant
            k <= entries@.len(),
            items_view(items@) == dir_items(entries@.take(k as int), out_dir@, input_format, output_format),
        decreases entries@.len() - k,
    {
        let e = &entries[k];
        proof {
            lemma_dir_items_step(entries@, k as int, out_dir@, input_format, output_format);
        }
        if !e.is_dir {
            match format_of_path(e.path.as_str()) {
                Some(found) => {
                    let name = get_file_name(e.path.as_str());
                    let item = WorkItem {
                        input: Some(e.path.clone()),
                        output: Some(join_path(out_dir.as_str(), name)),
                        input_format: match input_format {
                            Some(g) => g,
                            None => found,
                        },
                        output_format: match output_format {
                            Some(g) => g,
                            None => found,
                        },
                        file_name: Some(String::from_str(name)),
                    };
                    let ghost before = items@;
                    items.push(item);
                    assert(items_view(items@) =~= items_view(before).push(item@));
                },
                None => {},
            }
        }
        k = k + 1;
    }
    assert(entries@.take(entries@.len() as int) =~= entries@);
    items
}

/// Fails where a stream's format is not given. Needs nothing of the file
/// system, so it can run before the paths are looked at.
pub fn check_hints(
    i: &Input,
    o: &Output,
    input_format: Option<Format>,
    output_format: Option<Format>,
) -> (r: Result<(), IOIteratorError>)
    ensures
        r == hint_check(*i, *o, input_format, output_format),
{
    if let Input::Stdin = i {
        if input_format.is_none() {
            return Err(IOIteratorError::UnknownInputFormat);
        }
    }
    if let Output::Stdout = o {
        if output_format.is_none() {
            return Err(IOIteratorError::UnknownOutputFormat);
        }
    }
    Ok(())
}

/// Fails where several inputs would go to one output, or a stream's output
/// would need a file name. Needs to know which paths are directories, but not
/// what an input directory holds.
pub fn check_cardinality(
    i: &Input,
    o: &Output,
    input_is_dir: bool,
    output_is_dir: bool,
) -> (r: Result<(), IOIteratorError>)
    ensures
        r == cardinality_check(*i, *o, input_is_dir, output_is_dir),
{
    let out_dir = match o {
        Output::FileOrDir(_) => output_is_dir,
        Output::Stdout => false,
    };
    match i {
        Input::FileOrDir(_) => {
            if input_is_dir && !out_dir {
                return Err(IOIteratorError::MultiToSingle);
            }
        },
        Input::Stdin => {
            if out_dir {
                return Err(IOIteratorError::UnknownFileName);
            }
        },
    }
    Ok(())
}

/// The work for a single input: standard input where `input` is `None`.
fn resolve_single(
    input: Option<&String>,
    o: &Output,
    input_format: Option<Format>,
    output_format: Option<Format>,
    output_is_dir: bool,
) -> (r: Result<Vec<WorkItem>, IOIteratorError>)
    requires
        o is Stdout ==> output_format is Some,
    ensures
        vec_result_view(r) == single_plan(
            match input {
                Some(p) => Some(p@),
                None => None,
            },
            *o,
            input_format,
            output_format,
            output_is_dir,
        ),
{
    let found: Option<Format> = match input {
        Some(p) => format_of_path(p.as_str()),
        None => None,
    };
    let f = match input_format {
        Some(g) => g,
        None => match found {
            Some(g) => g,
            None => {
                return Err(IOIteratorError::UnknownInputFormat);
            },
        },
    };
    let name: Option<String> = match input {
        Some(p) => Some(String::from_str(get_file_name(p.as_str()))),
        None => None,
    };
    let target: (Option<String>, Format) = match o {
        Output::Stdout => (None, output_format.unwrap()),
        Output::FileOrDir(q) => {
            if output_is_dir {
                proof {
                    reveal_strlit("");
                }
                let n: &str = match &name {
                    Some(n) => n.as_str(),
                    None => "",
                };
                assert(n@ =~= opt_view(name).unwrap_or(Seq::empty()));
                let g = match output_format {
                    Some(g) => g,
                    None => match found {
                        Some(g) => g,
                        None => {
                            return Err(IOIteratorError::UnknownOutputFormat);
                        },
                    },
                };
                (Some(join_path(q.as_str(), n)), g)
            } else {
                match output_format {
                    Some(g) => (Some(q.clone()), g),
                    None => match format_of_path(q.as_str()) {
                        Some(g) => (Some(q.clone()), g),
                        None => {
                            return Err(IOIteratorError::UnknownOutputFormat);
                        },
                    },
                }
            }
        },
    };
    let input_path: Option<String> = match input {
        Some(p) => Some(p.clone()),
        None => None,
    };
    let item = WorkItem {
        input: input_path,
        output: target.0,
        input_format: f,
        output_format: target.1,
        file_name: name,
    };
    let mut v: Vec<WorkItem> = Vec::new();
    v.push(item);
    assert(items_view(v@) =~= seq![item@]);
    Ok(v)
}

impl IO {
    /// Resolves an input and an output into the ordered work of a run, given
    /// what the file system shows of their paths. A given format overrides the
    /// one an extension names; a stream's format must be given, and a file
    /// written into an output directory keeps its input's name and, unless
    /// given, the format that name's extension names. An input
    /// directory yields one item per file whose extension names a known
    /// format, in listing order, each written under its own name into the
    /// output directory.
    pub fn new(
        i: Input,
        o: Output,
        input_format: Option<Format>,
        output_format: Option<Format>,
        layout: &Layout,
    ) -> (r: Result<IO, IOIteratorError>)
        ensures
            io_result_view(r) == plan(
                i,
                o,
                input_format,
                output_format,
                layout.input_is_dir,
                layout.output_is_dir,
                layout.entries@,
            ),
    {
        check_hints(&i, &o, input_format, output_format)?;
        check_cardinality(&i, &o, layout.input_is_dir, layout.output_is_dir)?;
        let items = match &i {
            Input::Stdin => resolve_single(None, &o, input_format, output_format, layout.output_is_dir)?,
            Input::FileOrDir(p) => {
                if layout.input_is_dir {
                    match &o {
                        Output::FileOrDir(q) => resolve_dir(&layout.entries, q, input_format, output_format),
                        Output::Stdout => {
                            return Err(IOIteratorError::MultiToSingle);
                        },
                    }
                } else {
                    resolve_single(Some(p), &o, input_format, output_format, layout.output_is_dir)?
                }
            },
        };
        Ok(IO { items })
    }

    /// A walk over the plan from its first item.
    pub fn iter(&self) -> (r: IOIterator<'_>)
        ensures
            r.plan() == self@,
            r.position() == 0,
    {
        IOIterator { io: self, counter: 0 }
    }

    /// The number of items in the plan.
    pub fn len(&self) -> (r: usize)
        ensures
            r == self@.len(),
    {
        self.items.len()
    }
}

/// A stream input without a given format fails as an unknown input format;
/// with a format given, that failure never comes.
pub proof fn lemma_stream_input_needs_format(
    o: Output,
    input_format: Option<Format>,
    output_format: Option<Format>,
    input_is_dir: bool,
    output_is_dir: bool,
    entries: Seq<DirEntry>,
)
    ensures
        plan(Input::Stdin, o, None, output_format, input_is_dir, output_is_dir, entries) == Err::<
            Seq<WorkItemView>,
            IOIteratorError,
        >(IOIteratorError::UnknownInputFormat),
        input_format is Some ==> plan(
            Input::Stdin,
            o,
            input_format,
            output_format,
            input_is_dir,
            output_is_dir,
            entries,
        ) != Err::<Seq<WorkItemView>, IOIteratorError>(IOIteratorError::UnknownInputFormat),
{
}

/// An input directory with a single output file fails as many-to-one,
/// whatever the formats and whatever the directory holds.
pub proof fn lemma_directory_to_file_is_many_to_one(
    input_dir: String,
    output_file: String,
    input_format: Option<Format>,
    output_format: Option<Format>,
    entries: Seq<DirEntry>,
)
    ensures
        plan(
            Input::FileOrDir(input_dir),
            Output::FileOrDir(output_file),
            input_format,
            output_format,
            true,
            false,
            entries,
        ) == Err::<Seq<WorkItemView>, IOIteratorError>(IOIteratorError::MultiToSingle),
{
}

/// A stream input whose format is given, with an output directory, fails for
/// want of a file name to write under.
pub proof fn lemma_stream_to_directory_has_no_name(
    output_dir: String,
    input_format: Option<Format>,
    output_format: Option<Format>,
    input_is_dir: bool,
    entries: Seq<DirEntry>,
)
    requires
        input_format is Some,
    ensures
        plan(
            Input::Stdin,
            Output::FileOrDir(output_dir),
            input_format,
            output_format,
            input_is_dir,
            true,
            entries,
        ) == Err::<Seq<WorkItemView>, IOIteratorError>(IOIteratorError::UnknownFileName),
{
}

/// Between two directories the work holds one item per entry that is a file
/// with a known extension, in listing order: every such entry is read by an
/// item, and every item reads such an entry, so no other entry is read.
pub proof fn lemma_directory_plan_reads_image_files(
    input_dir: String,
    output_dir: String,
    input_format: Option<Format>,
    output_format: Option<Format>,
    entries: Seq<DirEntry>,
)
    ensures
        ({
            let r = plan(
                Input::FileOrDir(input_dir),
                Output::FileOrDir(output_dir),
                input_format,
                output_format,
                true,
                true,
                entries,
            );
            &&& r is Ok
            &&& r->Ok_0 == dir_items(entries, output_dir@, input_format, output_format)
            &&& forall|k: int|
                0 <= k < r->Ok_0.len() ==> exists|j: int|
                    0 <= j < entries.len() && is_image_file(entries[j]) && #[trigger] r->Ok_0[k].input
                        == Some(entries[j].path@)
            &&& forall|j: int|
                0 <= j < entries.len() && is_image_file(#[trigger] entries[j]) ==> exists|k: int|
                    0 <= k < r->Ok_0.len() && r->Ok_0[k].input == Some(entries[j].path@)
        }),
{
    broadcast use Seq::lemma_filter_len, Seq::lemma_filter_pred, Seq::lemma_filter_contains, Seq::lemma_filter_contains_rev;

    let files = image_files(entries);
    let items = dir_items(entries, output_dir@, input_format, output_format);
    assert forall|k: int| 0 <= k < items.len() implies exists|j: int|
        0 <= j < entries.len() && is_image_file(entries[j]) && #[trigger] items[k].input == Some(
            entries[j].path@,
        ) by {
        assert(files.contains(files[k]));
        assert(entries.contains(files[k]));
        let j = choose|j: int| 0 <= j < entries.len() && entries[j] == files[k];
        assert(is_image_file(files[k]));
    }
    assert forall|j: int| 0 <= j < entries.len() && is_image_file(#[trigger] entries[j]) implies exists|k: int|
        0 <= k < items.len() && items[k].input == Some(entries[j].path@) by {
        assert(files.contains(entries[j]));
        let k = choose|k: int| 0 <= k < files.len() && files[k] == entries[j];
        assert(items[k].input == Some(entries[j].path@));
    }
}

} // verus!
