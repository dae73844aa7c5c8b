//! Capability grants: which host directories a guest may see, under which
//! name, and with which permission.
//!
//! A grant is written `<host-path>:<guest-path>[:<perm>]`, where `<perm>` is
//! `ro` or `rw` and defaults to `ro`. A path cannot hold a `:`; the format has
//! no escape for it.

use vstd::prelude::*;
use vstd::string::StringExecFns;

verus! {

/// How much a guest may do below a granted directory.
#[derive(Clone, Copy, Debug, PartialEq, Eq, Structural)]
pub enum Permission {
    /// Directory listing and file read.
    ReadOnly,
    /// Everything `ReadOnly` allows, and file creation, write and delete.
    ReadWrite,
}

/// What a guest may do to a granted directory itself.
#[derive(Clone, Copy, Debug, PartialEq, Eq, Structural)]
pub struct DirPerms {
    /// List the directory and open what is in it.
    pub read: bool,
    /// Create, rename and remove entries.
    pub mutate: bool,
}

/// What a guest may do to the files below a granted directory.
#[derive(Clone, Copy, Debug, PartialEq, Eq, Structural)]
pub struct FilePerms {
    /// Read a file's contents.
    pub read: bool,
    /// Write a file's contents.
    pub write: bool,
}

impl DirPerms {
    /// The single right to read a directory.
    pub fn read() -> (r: DirPerms)
        ensures
            r == (DirPerms { read: true, mutate: false }),
    {
        DirPerms { read: true, mutate: false }
    }

    /// The single right to change a directory's entries.
    pub fn mutate() -> (r: DirPerms)
        ensures
            r == (DirPerms { read: false, mutate: true }),
    {
        DirPerms { read: false, mutate: true }
    }

    /// Whether every right in `other` is also in `self`.
    pub open spec fn covers(self, other: DirPerms) -> bool {
        &&& other.read ==> self.read
        &&& other.mutate ==> self.mutate
    }

    /// The rights of `self` and those of `other` together.
    pub fn union(self, other: DirPerms) -> (r: DirPerms)
        ensures
            r.read == (self.read || other.read),
            r.mutate == (self.mutate || other.mutate),
    {
        DirPerms { read: self.read || other.read, mutate: self.mutate || other.mutate }
    }

    /// Whether every right in `other` is also in `self`.
    pub fn contains(self, other: DirPerms) -> (r: bool)
        ensures
            r == self.covers(other),
    {
        (!other.read || self.read) && (!other.mutate || self.mutate)
    }
}

impl FilePerms {
    /// The single right to read files.
    pub fn read() -> (r: FilePerms)
        ensures
            r == (FilePerms { read: true, write: false }),
    {
        FilePerms { read: true, write: false }
    }

    /// The single right to write files.
    pub fn write() -> (r: FilePerms)
        ensures
            r == (FilePerms { read: false, write: true }),
    {
        FilePerms { read: false, write: true }
    }

    /// Whether every right in `other` is also in `self`.
    pub open spec fn covers(self, other: FilePerms) -> bool {
        &&& other.read ==> self.read
        &&& other.write ==> self.write
    }

    /// The rights of `self` and those of `other` together.
    pub fn union(self, other: FilePerms) -> (r: FilePerms)
        ensures
            r.read == (self.read || other.read),
            r.write == (self.write || other.write),
    {
        FilePerms { read: self.read || other.read, write: self.write || other.write }
    }

    /// Whether every right in `other` is also in `self`.
    pub fn contains(self, other: FilePerms) -> (r: bool)
        ensures
            r == self.covers(other),
    {
        (!other.read || self.read) && (!other.write || self.write)
    }
}

impl Permission {
    /// The directory rights that this permission stands for.
    pub open spec fn spec_dir_perms(self) -> DirPerms {
        match self {
            Permission::ReadOnly => DirPerms { read: true, mutate: false },
            Permission::ReadWrite => DirPerms { read: true, mutate: true },
        }
    }

    /// The file rights that this permission stands for.
    pub open spec fn spec_file_perms(self) -> FilePerms {
        match self {
            Permission::ReadOnly => FilePerms { read: true, write: false },
            Permission::ReadWrite => FilePerms { read: true, write: true },
        }
    }

    /// The directory rights that this permission stands for.
    #[verifier::when_used_as_spec(spec_dir_perms)]
    pub fn dir_perms(self) -> (r: DirPerms)
        ensures
            r == self.spec_dir_perms(),
    {
        match self {
            Permission::ReadOnly => DirPerms::read(),
            Permission::ReadWrite => DirPerms::read().union(DirPerms::mutate()),
        }
    }

    /// The file rights that this permission stands for.
    #[verifier::when_used_as_spec(spec_file_perms)]
    pub fn file_perms(self) -> (r: FilePerms)
        ensures
            r == self.spec_file_perms(),
    {
        match self {
            Permission::ReadOnly => FilePerms::read(),
            Permission::ReadWrite => FilePerms::read().union(FilePerms::write()),
        }
    }
}

/// The position of the first `:` in `s` at or after `from`, or the length of
/// `s` where there is none.
pub open spec fn field_end(s: Seq<char>, from: int) -> int
    decreases s.len() - from,
{
    if from >= s.len() {
        s.len() as int
    } else if s[from] == ':' {
        from
    } else {
        field_end(s, from + 1)
    }
}

/// Whether `s` holds no `:`.
pub open spec fn colon_free(s: Seq<char>) -> bool {
    forall|i: int| 0 <= i < s.len() ==> s[i] != ':'
}

/// `field_end` is the one position that ends a run without `:` begun at
/// `from`.
pub proof fn lemma_field_end(s: Seq<char>, from: int, end: int)
    requires
        0 <= from <= end <= s.len(),
        forall|k: int| from <= k < end ==> s[k] != ':',
        end < s.len() ==> s[end] == ':',
    ensures
        field_end(s, from) == end,
    decreases end - from,
{
    if from < end {
        lemma_field_end(s, from + 1, end);
    }
}

/// A grant as contracts speak of it.
pub struct GrantView {
    /// The path on the trusted side.
    pub host: Seq<char>,
    /// The path under which the directory appears to the guest.
    pub guest: Seq<char>,
    /// What the guest may do below it.
    pub permission: Permission,
}

/// Why a text is no grant, as contracts speak of it.
pub enum ParseErrorView {
    /// The text holds no `:`, so it names no guest path.
    MissingGuestPath,
    /// The third field is neither `ro` nor `rw`; it is carried along.
    InvalidPermission(Seq<char>),
}

/// The permission that a third field asks for, if it is one of the two tags.
pub open spec fn permission_of_tag(tag: Seq<char>) -> Option<Permission> {
    if tag == seq!['r', 'o'] {
        Some(Permission::ReadOnly)
    } else if tag == seq!['r', 'w'] {
        Some(Permission::ReadWrite)
    } else {
        None
    }
}

/// What a text means as a grant. The first `:` ends the host path and the
/// second ends the guest path; what follows the second, further `:` included,
/// is the permission tag.
pub open spec fn spec_parse(s: Seq<char>) -> Result<GrantView, ParseErrorView> {
    let i = field_end(s, 0);
    let j = field_end(s, i + 1);
    if i >= s.len() {
        Err(ParseErrorView::MissingGuestPath)
    } else if j >= s.len() {
        Ok(
            GrantView {
                host: s.subrange(0, i),
                guest: s.subrange(i + 1, s.len() as int),
                permission: Permission::ReadOnly,
            },
        )
    } else {
        let tag = s.subrange(j + 1, s.len() as int);
        match permission_of_tag(tag) {
            Some(permission) => Ok(
                GrantView { host: s.subrange(0, i), guest: s.subrange(i + 1, j), permission },
            ),
            None => Err(ParseErrorView::InvalidPermission(tag)),
        }
    }
}

/// A text without `:` is no grant: it names no guest path.
pub proof fn lemma_parse_without_colon(s: Seq<char>)
    requires
        colon_free(s),
    ensures
        spec_parse(s) == Err::<GrantView, ParseErrorView>(ParseErrorView::MissingGuestPath),
{
    lemma_field_end(s, 0, s.len() as int);
}

/// `<host>:<guest>` is the read-only grant of `host` under the name `guest`.
pub proof fn lemma_parse_two_fields(host: Seq<char>, guest: Seq<char>)
    requires
        colon_free(host),
        colon_free(guest),
    ensures
        spec_parse(host + seq![':'] + guest) == Ok::<GrantView, ParseErrorView>(
            GrantView { host, guest, permission: Permission::ReadOnly },
        ),
{
    let s = host + seq![':'] + guest;
    let i = host.len() as int;
    lemma_field_end(s, 0, i);
    lemma_field_end(s, i + 1, s.len() as int);
    assert(s.subrange(0, i) =~= host);
    assert(s.subrange(i + 1, s.len() as int) =~= guest);
}

/// `<host>:<guest>:<tag>` is the grant of `host` under the name `guest` with
/// the permission that `tag` asks for, and no grant where `tag` is neither
/// `ro` nor `rw`. The tag is all that follows the second `:`.
pub proof fn lemma_parse_three_fields(host: Seq<char>, guest: Seq<char>, tag: Seq<char>)
    requires
        colon_free(host),
        colon_free(guest),
    ensures
        spec_parse(host + seq![':'] + guest + seq![':'] + tag) == match permission_of_tag(tag) {
            Some(permission) => Ok::<GrantView, ParseErrorView>(
                GrantView { host, guest, permission },
            ),
            None => Err::<GrantView, ParseErrorView>(ParseErrorView::InvalidPermission(tag)),
        },
{
    let s = host + seq![':'] + guest + seq![':'] + tag;
    let i = host.len() as int;
    let j = i + 1 + guest.len();
    lemma_field_end(s, 0, i);
    lemma_field_end(s, i + 1, j);
    assert(s.subrange(0, i) =~= host);
    assert(s.subrange(i + 1, j) =~= guest);
    assert(s.subrange(j + 1, s.len() as int) =~= tag);
}

/// A grant allows writing only where the text asked for it: a text read as a
/// read-write grant ends in `:rw`.
pub proof fn lemma_read_write_only_on_request(s: Seq<char>)
    requires
        spec_parse(s) is Ok,
        spec_parse(s)->Ok_0.permission == Permission::ReadWrite,
    ensures
        s.len() >= 3,
        s.subrange(s.len() - 3, s.len() as int) == seq![':', 'r', 'w'],
{
    let i = field_end(s, 0);
    let j = field_end(s, i + 1);
    lemma_field_end_is_colon(s, 0);
    lemma_field_end_is_colon(s, i + 1);
    let tag = s.subrange(j + 1, s.len() as int);
    assert(tag == seq!['r', 'w']);
    assert(tag.len() == 2);
    assert(tag[0] == 'r' && tag[1] == 'w');
    assert(s.subrange(s.len() - 3, s.len() as int) =~= seq![':', 'r', 'w']);
}

/// Where `field_end` stops before the end of the text, it stops on a `:`,
/// and it never stops before `from`.
pub proof fn lemma_field_end_is_colon(s: Seq<char>, from: int)
    requires
        0 <= from,
    ensures
        from <= s.len() ==> from <= field_end(s, from) <= s.len(),
        field_end(s, from) < s.len() ==> s[field_end(s, from)] == ':',
        forall|k: int| from <= k < field_end(s, from) ==> s[k] != ':',
    decreases s.len() - from,
{
    if from < s.len() && s[from] != ':' {
        lemma_field_end_is_colon(s, from + 1);
    }
}

/// Whatever `ReadOnly` allows, `ReadWrite` allows too.
pub proof fn lemma_read_write_covers_read_only()
    ensures
        Permission::ReadWrite.spec_dir_perms().covers(Permission::ReadOnly.spec_dir_perms()),
        Permission::ReadWrite.spec_file_perms().covers(Permission::ReadOnly.spec_file_perms()),
        !Permission::ReadOnly.spec_dir_perms().mutate,
        !Permission::ReadOnly.spec_file_perms().write,
{
}

/// Why a text is no grant.
#[derive(Debug, PartialEq, Eq)]
pub enum ParseError {
    /// The text holds no `:`, so it names no guest path.
    MissingGuestPath,
    /// The third field is neither `ro` nor `rw`; it is carried along.
    InvalidPermission(String),
}

impl View for ParseError {
    type V = ParseErrorView;

    open spec fn view(&self) -> ParseErrorView {
        match self {
            ParseError::MissingGuestPath => ParseErrorView::MissingGuestPath,
            ParseError::InvalidPermission(tag) => ParseErrorView::InvalidPermission(tag@),
        }
    }
}

/// What a parse error says, in words.
pub open spec fn spec_parse_message(e: ParseErrorView) -> Seq<char> {
    match e {
        ParseErrorView::MissingGuestPath => "Invalid mount: no guest path"@,
        ParseErrorView::InvalidPermission(tag) => "Invalid permissions: "@ + tag,
    }
}

impl ParseError {
    /// What the error says, in words.
    pub fn message(&self) -> (m: String)
        ensures
            m@ == spec_parse_message(self@),
    {
        match self {
            ParseError::MissingGuestPath => "Invalid mount: no guest path".to_owned(),
            ParseError::InvalidPermission(tag) => {
                "Invalid permissions: ".to_owned().concat(tag.as_str())
            },
        }
    }
}

/// One directory of the host made visible to a guest. Its fields are set
/// when it is made and never change.
#[derive(Debug, PartialEq, Eq)]
pub struct DirMount {
    host: String,
    guest: String,
    permission: Permission,
}

impl View for DirMount {
    type V = GrantView;

    closed spec fn view(&self) -> GrantView {
        GrantView { host: self.host@, guest: self.guest@, permission: self.permission }
    }
}

/// The characters of `s`, one by one.
fn chars_of(s: &str) -> (v: Vec<char>)
    ensures
        v@ == s@,
{
    let mut v: Vec<char> = Vec::new();
    for c in it: s.chars()
        invariant
            v@ == s@.take(it.index() as int),
            it.seq() == s@,
    {
        v.push(c);
    }
    v
}

/// The position of the first `:` at or after `from`, or the length.
fn find_colon(chars: &Vec<char>, from: usize) -> (end: usize)
    requires
        from <= chars.len(),
    ensures
        end == field_end(chars@, from as int),
        from <= end <= chars.len(),
{
    let mut end: usize = from;
    while end < chars.len() && chars[end] != ':'
        invariant
            from <= end <= chars.len(),
            forall|k: int| from <= k < end ==> chars@[k] != ':',
        decreases chars.len() - end,
    {
        end += 1;
    }
    proof {
        lemma_field_end(chars@, from as int, end as int);
    }
    end
}

impl DirMount {
    /// A grant of `host` under the name `guest`.
    pub fn new(host: String, guest: String, permission: Permission) -> (r: DirMount)
        ensures
            r@ == (GrantView { host: host@, guest: guest@, permission }),
    {
        DirMount { host, guest, permission }
    }

    /// Reads a grant written as `<host-path>:<guest-path>[:<perm>]`.
    ///
    /// Whether the host path exists is not looked at here.
    pub fn parse(s: &str) -> (r: Result<DirMount, ParseError>)
        ensures
            match r {
                Ok(grant) => spec_parse(s@) == Ok::<GrantView, ParseErrorView>(grant@),
                Err(e) => spec_parse(s@) == Err::<GrantView, ParseErrorView>(e@),
            },
    {
        let chars = chars_of(s);
        let n = chars.len();
        let i = find_colon(&chars, 0);
        if i >= n {
            return Err(ParseError::MissingGuestPath);
        }
        let j = find_colon(&chars, i + 1);
        let host = s.substring_char(0, i).to_owned();
        if j >= n {
            let guest = s.substring_char(i + 1, n).to_owned();
            return Ok(DirMount { host, guest, permission: Permission::ReadOnly });
        }
        let guest = s.substring_char(i + 1, j).to_owned();
        let tag = s.substring_char(j + 1, n);
        let is_tag = n - j == 3 && chars[j + 1] == 'r';
        if is_tag && chars[j + 2] == 'o' {
            assert(tag@ =~= seq!['r', 'o']);
            Ok(DirMount { host, guest, permission: Permission::ReadOnly })
        } else if is_tag && chars[j + 2] == 'w' {
            assert(tag@ =~= seq!['r', 'w']);
            Ok(DirMount { host, guest, permission: Permission::ReadWrite })
        } else {
            assert(permission_of_tag(tag@) is None) by {
                if tag@ == seq!['r', 'o'] || tag@ == seq!['r', 'w'] {
                    assert(tag@.len() == 2);
                    assert(tag@[0] == 'r');
                    assert(tag@[1] == 'o' || tag@[1] == 'w');
                }
            }
            Err(ParseError::InvalidPermission(tag.to_owned()))
        }
    }

    /// The path on the trusted side.
    pub fn host(&self) -> (r: &str)
        ensures
            r@ == self@.host,
    {
        self.host.as_str()
    }

    /// The path under which the directory appears to the guest.
    pub fn guest(&self) -> (r: &str)
        ensures
            r@ == self@.guest,
    {
        self.guest.as_str()
    }

    /// What the guest may do below the directory.
    pub fn permission(&self) -> (r: Permission)
        ensures
            r == self@.permission,
    {
        self.permission
    }

    /// What the guest may do to the directory itself.
    pub fn dir_perms(&self) -> (r: DirPerms)
        ensures
            r == self@.permission.spec_dir_perms(),
    {
        self.permission.dir_perms()
    }

    /// What the guest may do to the files below the directory.
    pub fn file_perms(&self) -> (r: FilePerms)
        ensures
            r == self@.permission.spec_file_perms(),
    {
        self.permission.file_perms()
    }
}

impl core::str::FromStr for DirMount {
    type Err = ParseError;

    fn from_str(s: &str) -> (r: Result<DirMount, ParseError>)
        ensures
            match r {
                Ok(grant) => spec_parse(s@) == Ok::<GrantView, ParseErrorView>(grant@),
                Err(e) => spec_parse(s@) == Err::<GrantView, ParseErrorView>(e@),
            },
    {
        DirMount::parse(s)
    }
}

} // verus!
