//! Files.
use vstd::prelude::*;

use crate::platform::fut::IoUringFut;
use crate::platform::ops::{file_open, is_path, opens};
use crate::platform::sys::{
    o_append, o_creat, o_excl, o_rdonly, o_rdwr, o_trunc, o_wronly,
};

verus! {

/// What [`OpenOptions`] ask for.
pub struct OpenOptionsView {
    pub read: bool,
    pub write: bool,
    pub append: bool,
    pub truncate: bool,
    pub create: bool,
    pub create_new: bool,
}

impl OpenOptionsView {
    /// The access mode of `open(2)`: reading, writing, or both. Without either it is the one
    /// for reading.
    pub open spec fn access_mode(self) -> i32 {
        if self.write {
            if self.read {
                2
            } else {
                1
            }
        } else {
            0
        }
    }

    /// The flags of `open(2)`: the access mode, `O_APPEND`, `O_TRUNC`, `O_CREAT` and `O_EXCL`.
    pub open spec fn flags(self) -> i32 {
        self.access_mode() | (if self.append {
            0x400i32
        } else {
            0i32
        }) | (if self.truncate {
            0x200i32
        } else {
            0i32
        }) | (if self.create || self.create_new {
            0x40i32
        } else {
            0i32
        }) | (if self.create_new {
            0x80i32
        } else {
            0i32
        })
    }
}

/// How to open a file. At first nothing is asked for; each method sets one option.
#[derive(Debug)]
pub struct OpenOptions {
    read: bool,
    write: bool,
    append: bool,
    truncate: bool,
    create: bool,
    create_new: bool,
}

impl View for OpenOptions {
    type V = OpenOptionsView;

    closed spec fn view(&self) -> OpenOptionsView {
        OpenOptionsView {
            read: self.read,
            write: self.write,
            append: self.append,
            truncate: self.truncate,
            create: self.create,
            create_new: self.create_new,
        }
    }
}

impl OpenOptions {
    /// Nothing is asked for.
    pub fn new() -> (opts: Self)
        ensures
            opts@ == (OpenOptionsView {
                read: false,
                write: false,
                append: false,
                truncate: false,
                create: false,
                create_new: false,
            }),
    {
        OpenOptions {
            read: false,
            write: false,
            append: false,
            truncate: false,
            create: false,
            create_new: false,
        }
    }

    /// Whether to open the file for reading.
    pub fn read(self, read: bool) -> (opts: Self)
        ensures
            opts@ == (OpenOptionsView { read, ..self@ }),
    {
        OpenOptions { read, ..self }
    }

    /// Whether to open the file for writing.
    pub fn write(self, write: bool) -> (opts: Self)
        ensures
            opts@ == (OpenOptionsView { write, ..self@ }),
    {
        OpenOptions { write, ..self }
    }

    /// Whether to have every write go to the end of the file. Either way the file is opened
    /// for writing.
    pub fn append(self, append: bool) -> (opts: Self)
        ensures
            opts@ == (OpenOptionsView { append, write: true, ..self@ }),
    {
        let this = self.write(true);
        OpenOptions { append, ..this }
    }

    /// Whether to empty the file.
    pub fn truncate(self, truncate: bool) -> (opts: Self)
        ensures
            opts@ == (OpenOptionsView { truncate, ..self@ }),
    {
        OpenOptions { truncate, ..self }
    }

    /// Whether to create the file if it is not there.
    pub fn create(self, create: bool) -> (opts: Self)
        ensures
            opts@ == (OpenOptionsView { create, ..self@ }),
    {
        OpenOptions { create, ..self }
    }

    /// Whether to create the file, and to fail if it is there.
    pub fn create_new(self, create_new: bool) -> (opts: Self)
        ensures
            opts@ == (OpenOptionsView { create_new, ..self@ }),
    {
        OpenOptions { create_new, ..self }
    }

    /// The flags with which to open the file.
    pub fn open_flags(&self) -> (flags: i32)
        ensures
            flags == self@.flags(),
    {
        let mut flags: i32 = match (self.read, self.write) {
            (true, false) => o_rdonly(),
            (false, true) => o_wronly(),
            (true, true) => o_rdwr(),
            (false, false) => 0,
        };
        proof {
            lemma_or_nothing();
        }

        if self.append {
            flags = flags | o_append();
        }
        if self.truncate {
            flags = flags | o_trunc();
        }
        if self.create || self.create_new {
            flags = flags | o_creat();
        }
        if self.create_new {
            flags = flags | o_excl();
        }

        flags
    }
}

/// A file.
#[derive(Debug)]
pub struct File {
    fd: i32,
}

impl File {
    /// Its file descriptor.
    pub closed spec fn fd(&self) -> i32 {
        self.fd
    }

    /// The file that has been opened with this file descriptor.
    pub fn new(fd: i32) -> (file: Self)
        ensures
            file.fd() == fd,
    {
        File { fd }
    }

    /// Its file descriptor.
    pub fn raw_fd(&self) -> (fd: i32)
        ensures
            fd == self.fd(),
    {
        self.fd
    }

    /// Opens a file. The result is its file descriptor.
    pub fn open(path: &[u8], opts: &OpenOptions) -> (fut: IoUringFut)
        requires
            is_path(path@),
        ensures
            opens(fut, path@, opts@),
    {
        file_open(path, opts)
    }
}

proof fn lemma_or_nothing()
    ensures
        forall|x: i32| #[trigger] (x | 0i32) == x,
{
    assert(forall|x: i32| #[trigger] (x | 0i32) == x) by (bit_vector);
}

/// Each option has its own bits among the flags: whether the file may be read or written,
/// and each of the others, can be told from them, and there are no other bits. `create_new`
/// asks for a new file, whatever `create` says.
pub proof fn law_flags_tell_options(opts: OpenOptionsView)
    ensures
        opts.flags() & 3 == (if opts.write {
            if opts.read {
                2i32
            } else {
                1i32
            }
        } else {
            0i32
        }),
        opts.flags() & 0x400 == 0x400 <==> opts.append,
        opts.flags() & 0x200 == 0x200 <==> opts.truncate,
        opts.flags() & 0x40 == 0x40 <==> opts.create || opts.create_new,
        opts.flags() & 0x80 == 0x80 <==> opts.create_new,
        opts.flags() & !0x6c3 == 0,
{
    let mode: i32 = opts.access_mode();
    let (append, truncate, create, create_new) = (
        opts.append,
        opts.truncate,
        opts.create || opts.create_new,
        opts.create_new,
    );
    let (a, t, c, n): (i32, i32, i32, i32) = (
        if append { 0x400 } else { 0 },
        if truncate { 0x200 } else { 0 },
        if create { 0x40 } else { 0 },
        if create_new { 0x80 } else { 0 },
    );
    let flags: i32 = opts.flags();
    assert({
        &&& flags & 3 == mode
        &&& flags & 0x400 == a
        &&& flags & 0x200 == t
        &&& flags & 0x40 == c
        &&& flags & 0x80 == n
        &&& flags & !0x6c3i32 == 0
    }) by (bit_vector)
        requires
            flags == mode | a | t | c | n,
            mode == 0 || mode == 1 || mode == 2,
            a == 0 || a == 0x400,
            t == 0 || t == 0x200,
            c == 0 || c == 0x40,
            n == 0 || n == 0x80,
    ;
}

} // verus!
