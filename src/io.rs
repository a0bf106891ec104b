//! Where text is read from and written to, as plain values.
use vstd::prelude::*;

verus! {

/// A named piece of text: a file's path, or a stream's label, with the content.
pub struct FileDescriptor {
    pub name: String,
    pub content: String,
}

/// The label given to text read from standard input.
pub open spec fn stdin_label() -> Seq<char> {
    "[stdin]"@
}

/// The label given to text written to standard output.
pub open spec fn stdout_label() -> Seq<char> {
    "[stdout]"@
}

/// Where text is read from.
#[derive(Clone, Debug)]
pub enum ReadSource {
    Stdin,
    File(String),
}

impl ReadSource {
    /// Whether this is standard input.
    pub fn is_stdin(&self) -> (r: bool)
        ensures
            r == (self is Stdin),
    {
        if let Self::Stdin = self {
            true
        } else {
            false
        }
    }

    /// Whether this is a file.
    pub fn is_file(&self) -> (r: bool)
        ensures
            r == (self is File),
    {
        if let Self::File(_) = self {
            true
        } else {
            false
        }
    }

    /// `stream` for standard input, or what `file` gives for the file's path.
    pub fn map<'s, T, F: FnOnce(&'s String) -> T>(&'s self, stream: T, file: F) -> (r: T)
        requires
            self matches Self::File(f) ==> file.requires((&f,)),
        ensures
            match self {
                Self::Stdin => r == stream,
                Self::File(f) => file.ensures((&f,), r),
            },
    {
        match self {
            Self::Stdin => stream,
            Self::File(f) => file(f),
        }
    }

    /// What `stream` gives for standard input, or what `file` gives for the
    /// file's path.
    pub fn map_or<T, S: FnOnce() -> T, F: FnOnce(&String) -> T>(&self, stream: S, file: F) -> (r: T)
        requires
            self is Stdin ==> stream.requires(()),
            self matches Self::File(f) ==> file.requires((&f,)),
        ensures
            match self {
                Self::Stdin => stream.ensures((), r),
                Self::File(f) => file.ensures((&f,), r),
            },
    {
        match self {
            Self::Stdin => stream(),
            Self::File(f) => file(f),
        }
    }

    /// Names `content` after this source: its path, or `[stdin]`.
    pub fn descriptor(self, content: String) -> (r: FileDescriptor)
        ensures
            r.content == content,
            match self {
                Self::Stdin => r.name@ == stdin_label(),
                Self::File(name) => r.name == name,
            },
    {
        match self {
            Self::Stdin => FileDescriptor { name: String::from_str("[stdin]"), content },
            Self::File(name) => FileDescriptor { name, content },
        }
    }
}

/// Where text is written to.
#[derive(Clone, Debug)]
pub enum WriteTarget {
    Stdout,
    File(String),
}

impl WriteTarget {
    /// Whether this is standard output.
    pub fn is_stdout(&self) -> (r: bool)
        ensures
            r == (self is Stdout),
    {
        if let Self::Stdout = self {
            true
        } else {
            false
        }
    }

    /// Whether this is a file.
    pub fn is_file(&self) -> (r: bool)
        ensures
            r == (self is File),
    {
        if let Self::File(_) = self {
            true
        } else {
            false
        }
    }

    /// `stream` for standard output, or what `file` gives for the file's path.
    pub fn map<'s, T, F: FnOnce(&'s String) -> T>(&'s self, stream: T, file: F) -> (r: T)
        requires
            self matches Self::File(f) ==> file.requires((&f,)),
        ensures
            match self {
                Self::Stdout => r == stream,
                Self::File(f) => file.ensures((&f,), r),
            },
    {
        match self {
            Self::Stdout => stream,
            Self::File(f) => file(f),
        }
    }

    /// What `stream` gives for standard output, or what `file` gives for the
    /// file's path.
    pub fn map_or<T, S: FnOnce() -> T, F: FnOnce(&String) -> T>(&self, stream: S, file: F) -> (r: T)
        requires
            self is Stdout ==> stream.requires(()),
            self matches Self::File(f) ==> file.requires((&f,)),
        ensures
            match self {
                Self::Stdout => stream.ensures((), r),
                Self::File(f) => file.ensures((&f,), r),
            },
    {
        match self {
            Self::Stdout => stream(),
            Self::File(f) => file(f),
        }
    }

    /// Names `content` after this target: its path, or `[stdout]`.
    pub fn descriptor(self, content: String) -> (r: FileDescriptor)
        ensures
            r.content == content,
            match self {
                Self::Stdout => r.name@ == stdout_label(),
                Self::File(name) => r.name == name,
            },
    {
        match self {
            Self::Stdout => FileDescriptor { name: String::from_str("[stdout]"), content },
            Self::File(name) => FileDescriptor { name, content },
        }
    }
}

/// The source that reads where a target writes: standard input for
/// standard output, the same path for a file.
impl From<WriteTarget> for ReadSource {
    fn from(t: WriteTarget) -> (r: Self)
        ensures
            r == source_of(t),
    {
        match t {
            WriteTarget::Stdout => ReadSource::Stdin,
            WriteTarget::File(f) => ReadSource::File(f),
        }
    }
}

impl vstd::std_specs::convert::FromSpecImpl<WriteTarget> for ReadSource {
    open spec fn obeys_from_spec() -> bool {
        true
    }

    open spec fn from_spec(t: WriteTarget) -> Self {
        source_of(t)
    }
}

/// The target that writes where a source reads: standard output for
/// standard input, the same path for a file.
impl From<ReadSource> for WriteTarget {
    fn from(s: ReadSource) -> (r: Self)
        ensures
            r == target_of(s),
    {
        match s {
            ReadSource::Stdin => WriteTarget::Stdout,
            ReadSource::File(f) => WriteTarget::File(f),
        }
    }
}

impl vstd::std_specs::convert::FromSpecImpl<ReadSource> for WriteTarget {
    open spec fn obeys_from_spec() -> bool {
        true
    }

    open spec fn from_spec(s: ReadSource) -> Self {
        target_of(s)
    }
}

/// The source that reads where `t` writes.
pub open spec fn source_of(t: WriteTarget) -> ReadSource {
    match t {
        WriteTarget::Stdout => ReadSource::Stdin,
        WriteTarget::File(f) => ReadSource::File(f),
    }
}

/// The target that writes where `s` reads.
pub open spec fn target_of(s: ReadSource) -> WriteTarget {
    match s {
        ReadSource::Stdin => WriteTarget::Stdout,
        ReadSource::File(f) => WriteTarget::File(f),
    }
}

/// Collects written text in a string.
pub struct StringWriter {
    string: String,
}

impl View for StringWriter {
    type V = Seq<char>;

    closed spec fn view(&self) -> Seq<char> {
        self.string@
    }
}

impl StringWriter {
    /// A writer with an empty buffer.
    pub fn new() -> (r: Self)
        ensures
            r@ == Seq::<char>::empty(),
    {
        StringWriter { string: String::new() }
    }

    /// A writer whose buffer starts with `s`.
    pub fn from(s: &str) -> (r: Self)
        ensures
            r@ == s@,
    {
        StringWriter { string: String::from_str(s) }
    }

    /// The text written so far.
    pub fn get(&self) -> (r: &String)
        ensures
            r@ == self@,
    {
        &self.string
    }

    /// Empties the buffer.
    pub fn clear(&mut self)
        ensures
            final(self)@ == Seq::<char>::empty(),
    {
        self.string = String::new();
    }

    /// Appends `s` to the buffer.
    pub fn write_str(&mut self, s: &str)
        ensures
            final(self)@ == old(self)@ + s@,
    {
        self.string.append(s);
    }
}

} // verus!
