//! Helpers for working with `sysusers.d` configuration files.
//!
//! For the complete documentation see
//! <https://www.freedesktop.org/software/systemd/man/sysusers.d.html>.

use crate::decimal::{parse_u64, parse_unsigned};
use crate::errors::{ErrorKind, SdError};
use crate::paths::path_from;
use crate::text::{parts, push_char, same_text, split, views};
use std::path::PathBuf;
use vstd::prelude::*;
use vstd::std_specs::convert::TryFromSpecImpl;
use vstd::string::StringSliceAdditionalSpecFns;
use vstd::utf8::encode_utf8;

verus! {

/// Single entry in `sysusers.d` configuration format.
#[derive(Clone, Debug, PartialEq)]
pub enum SysusersEntry {
    AddRange(AddRange),
    AddUserToGroup(AddUserToGroup),
    CreateGroup(CreateGroup),
    CreateUserAndGroup(CreateUserAndGroup),
}

/// Sysusers entry of type `r`.
#[derive(Clone, Debug, PartialEq)]
pub struct AddRange {
    pub(crate) from: u32,
    pub(crate) to: u32,
}

/// What an [`AddRange`] entry holds.
pub ghost struct AddRangeView {
    pub from: u32,
    pub to: u32,
}

impl View for AddRange {
    type V = AddRangeView;

    closed spec fn view(&self) -> AddRangeView {
        AddRangeView { from: self.from, to: self.to }
    }
}

impl AddRange {
    /// Create a new `AddRange` entry.
    pub fn new(from: u32, to: u32) -> (r: Result<Self, SdError>)
        ensures
            r matches Ok(e) && e@ == (AddRangeView { from, to }),
    {
        Ok(Self { from, to })
    }

    /// Returns the first ID of the range.
    pub fn from(&self) -> (id: u32)
        ensures
            id == self@.from,
    {
        self.from
    }

    /// Returns the last ID of the range.
    pub fn to(&self) -> (id: u32)
        ensures
            id == self@.to,
    {
        self.to
    }
}

/// Sysusers entry of type `m`.
#[derive(Clone, Debug, PartialEq)]
pub struct AddUserToGroup {
    pub(crate) username: String,
    pub(crate) groupname: String,
}

/// What an [`AddUserToGroup`] entry holds.
pub ghost struct AddUserToGroupView {
    pub username: Seq<char>,
    pub groupname: Seq<char>,
}

impl View for AddUserToGroup {
    type V = AddUserToGroupView;

    closed spec fn view(&self) -> AddUserToGroupView {
        AddUserToGroupView { username: self.username@, groupname: self.groupname@ }
    }
}

impl AddUserToGroup {
    /// Whether both names of the entry pass strict validation.
    pub open spec fn wf(&self) -> bool {
        is_strict_name(self@.username) && is_strict_name(self@.groupname)
    }

    /// Create a new `AddUserToGroup` entry.
    ///
    /// The user name is validated first: where both names are refused, the error is the
    /// one of the user name.
    pub fn new(username: String, groupname: String) -> (r: Result<Self, SdError>)
        ensures
            r is Ok <==> is_strict_name(username@) && is_strict_name(groupname@),
            r matches Ok(e) ==> e.wf() && e@ == (AddUserToGroupView {
                username: username@,
                groupname: groupname@,
            }),
            r matches Err(e) ==> e.kind() == ErrorKind::Generic && Some(e.message()) == (
            if is_strict_name(username@) {
                strict_error(groupname@)
            } else {
                strict_error(username@)
            }),
    {
        match validate_name_strict(username.as_str()) {
            Err(e) => { return Err(e); },
            Ok(()) => {},
        }
        match validate_name_strict(groupname.as_str()) {
            Err(e) => { return Err(e); },
            Ok(()) => {},
        }
        Ok(Self { username, groupname })
    }

    /// Returns the name of the user.
    pub fn username(&self) -> (s: &str)
        ensures
            s@ == self@.username,
    {
        self.username.as_str()
    }

    /// Returns the name of the group.
    pub fn groupname(&self) -> (s: &str)
        ensures
            s@ == self@.groupname,
    {
        self.groupname.as_str()
    }
}

/// ID entity for `CreateGroup`.
#[derive(Clone, Debug, PartialEq)]
pub enum GidOrPath {
    Gid(u32),
    Path(PathBuf),
    Automatic,
}

/// Sysusers entry of type `g`.
#[derive(Clone, Debug, PartialEq)]
pub struct CreateGroup {
    pub(crate) groupname: String,
    pub(crate) gid: GidOrPath,
}

/// What a [`CreateGroup`] entry holds.
pub ghost struct CreateGroupView {
    pub groupname: Seq<char>,
    pub gid: GidOrPath,
}

impl View for CreateGroup {
    type V = CreateGroupView;

    closed spec fn view(&self) -> CreateGroupView {
        CreateGroupView { groupname: self.groupname@, gid: self.gid }
    }
}

impl CreateGroup {
    /// Whether the name of the group passes strict validation.
    pub open spec fn wf(&self) -> bool {
        is_strict_name(self@.groupname)
    }

    /// Create a new `CreateGroup` entry.
    pub fn new(groupname: String) -> (r: Result<Self, SdError>)
        ensures
            r is Ok <==> is_strict_name(groupname@),
            r matches Ok(e) ==> e.wf() && e@ == (CreateGroupView {
                groupname: groupname@,
                gid: GidOrPath::Automatic,
            }),
            r matches Err(e) ==> e.kind() == ErrorKind::Generic && Some(e.message())
                == strict_error(groupname@),
    {
        Self::impl_new(groupname, GidOrPath::Automatic)
    }

    /// Create a new `CreateGroup` entry, using a numeric ID.
    pub fn new_with_gid(groupname: String, gid: u32) -> (r: Result<Self, SdError>)
        ensures
            r is Ok <==> is_strict_name(groupname@),
            r matches Ok(e) ==> e.wf() && e@ == (CreateGroupView {
                groupname: groupname@,
                gid: GidOrPath::Gid(gid),
            }),
            r matches Err(e) ==> e.kind() == ErrorKind::Generic && Some(e.message())
                == strict_error(groupname@),
    {
        Self::impl_new(groupname, GidOrPath::Gid(gid))
    }

    /// Create a new `CreateGroup` entry, using a filepath reference.
    pub fn new_with_path(groupname: String, path: PathBuf) -> (r: Result<
        Self,
        SdError,
    >)
        ensures
            r is Ok <==> is_strict_name(groupname@),
            r matches Ok(e) ==> e.wf() && e@ == (CreateGroupView {
                groupname: groupname@,
                gid: GidOrPath::Path(path),
            }),
            r matches Err(e) ==> e.kind() == ErrorKind::Generic && Some(e.message())
                == strict_error(groupname@),
    {
        Self::impl_new(groupname, GidOrPath::Path(path))
    }

    /// Create a new `CreateGroup` entry with the given ID entity.
    pub fn impl_new(groupname: String, gid: GidOrPath) -> (r: Result<Self, SdError>)
        ensures
            r is Ok <==> is_strict_name(groupname@),
            r matches Ok(e) ==> e.wf() && e@ == (CreateGroupView { groupname: groupname@, gid }),
            r matches Err(e) ==> e.kind() == ErrorKind::Generic && Some(e.message())
                == strict_error(groupname@),
    {
        match validate_name_strict(groupname.as_str()) {
            Err(e) => { return Err(e); },
            Ok(()) => {},
        }
        Ok(Self { groupname, gid })
    }

    /// Returns the name of the group.
    pub fn groupname(&self) -> (s: &str)
        ensures
            s@ == self@.groupname,
    {
        self.groupname.as_str()
    }

    /// Returns the ID entity of the group.
    pub fn gid(&self) -> (g: &GidOrPath)
        ensures
            *g == self@.gid,
    {
        &self.gid
    }
}

/// ID entity for `CreateUserAndGroup`.
#[derive(Clone, Debug, PartialEq)]
pub enum IdOrPath {
    Id(u32),
    UidGid(u32, u32),
    UidGroupname(u32, String),
    Path(PathBuf),
    Automatic,
}

/// What an [`IdOrPath`] holds.
pub ghost enum IdOrPathView {
    Id(u32),
    UidGid(u32, u32),
    UidGroupname(u32, Seq<char>),
    Path(PathBuf),
    Automatic,
}

impl View for IdOrPath {
    type V = IdOrPathView;

    open spec fn view(&self) -> IdOrPathView {
        match *self {
            IdOrPath::Id(id) => IdOrPathView::Id(id),
            IdOrPath::UidGid(uid, gid) => IdOrPathView::UidGid(uid, gid),
            IdOrPath::UidGroupname(uid, groupname) => IdOrPathView::UidGroupname(uid, groupname@),
            IdOrPath::Path(path) => IdOrPathView::Path(path),
            IdOrPath::Automatic => IdOrPathView::Automatic,
        }
    }
}

/// Sysusers entry of type `u`.
#[derive(Clone, Debug, PartialEq)]
pub struct CreateUserAndGroup {
    pub(crate) name: String,
    pub(crate) id: IdOrPath,
    pub(crate) gecos: String,
    pub(crate) home_dir: Option<PathBuf>,
    pub(crate) shell: Option<PathBuf>,
}

/// What a [`CreateUserAndGroup`] entry holds.
pub ghost struct CreateUserAndGroupView {
    pub name: Seq<char>,
    pub id: IdOrPathView,
    pub gecos: Seq<char>,
    pub home_dir: Option<PathBuf>,
    pub shell: Option<PathBuf>,
}

impl View for CreateUserAndGroup {
    type V = CreateUserAndGroupView;

    closed spec fn view(&self) -> CreateUserAndGroupView {
        CreateUserAndGroupView {
            name: self.name@,
            id: self.id@,
            gecos: self.gecos@,
            home_dir: self.home_dir,
            shell: self.shell,
        }
    }
}

impl CreateUserAndGroup {
    /// Whether the name of the user passes strict validation.
    pub open spec fn wf(&self) -> bool {
        is_strict_name(self@.name)
    }

    /// Create a new `CreateUserAndGroup` entry, with an ID that is picked automatically.
    pub fn new(
        name: String,
        gecos: String,
        home_dir: Option<PathBuf>,
        shell: Option<PathBuf>,
    ) -> (r: Result<Self, SdError>)
        ensures
            r is Ok <==> is_strict_name(name@),
            r matches Ok(e) ==> e.wf() && e@ == (CreateUserAndGroupView {
                name: name@,
                id: IdOrPathView::Automatic,
                gecos: gecos@,
                home_dir,
                shell,
            }),
            r matches Err(e) ==> e.kind() == ErrorKind::Generic && Some(e.message())
                == strict_error(name@),
    {
        Self::impl_new(name, gecos, home_dir, shell, IdOrPath::Automatic)
    }

    /// Create a new `CreateUserAndGroup` entry, using a numeric ID.
    pub fn new_with_id(
        name: String,
        id: u32,
        gecos: String,
        home_dir: Option<PathBuf>,
        shell: Option<PathBuf>,
    ) -> (r: Result<Self, SdError>)
        ensures
            r is Ok <==> is_strict_name(name@),
            r matches Ok(e) ==> e.wf() && e@ == (CreateUserAndGroupView {
                name: name@,
                id: IdOrPathView::Id(id),
                gecos: gecos@,
                home_dir,
                shell,
            }),
            r matches Err(e) ==> e.kind() == ErrorKind::Generic && Some(e.message())
                == strict_error(name@),
    {
        Self::impl_new(name, gecos, home_dir, shell, IdOrPath::Id(id))
    }

    /// Create a new `CreateUserAndGroup` entry, using a UID and a GID.
    pub fn new_with_uid_gid(
        name: String,
        uid: u32,
        gid: u32,
        gecos: String,
        home_dir: Option<PathBuf>,
        shell: Option<PathBuf>,
    ) -> (r: Result<Self, SdError>)
        ensures
            r is Ok <==> is_strict_name(name@),
            r matches Ok(e) ==> e.wf() && e@ == (CreateUserAndGroupView {
                name: name@,
                id: IdOrPathView::UidGid(uid, gid),
                gecos: gecos@,
                home_dir,
                shell,
            }),
            r matches Err(e) ==> e.kind() == ErrorKind::Generic && Some(e.message())
                == strict_error(name@),
    {
        Self::impl_new(name, gecos, home_dir, shell, IdOrPath::UidGid(uid, gid))
    }

    /// Create a new `CreateUserAndGroup` entry, using a UID and a groupname.
    ///
    /// The group name is validated first: where both names are refused, the error is the
    /// one of the group name.
    pub fn new_with_uid_groupname(
        name: String,
        uid: u32,
        groupname: String,
        gecos: String,
        home_dir: Option<PathBuf>,
        shell: Option<PathBuf>,
    ) -> (r: Result<Self, SdError>)
        ensures
            r is Ok <==> is_strict_name(groupname@) && is_strict_name(name@),
            r matches Ok(e) ==> e.wf() && e@ == (CreateUserAndGroupView {
                name: name@,
                id: IdOrPathView::UidGroupname(uid, groupname@),
                gecos: gecos@,
                home_dir,
                shell,
            }),
            r matches Err(e) ==> e.kind() == ErrorKind::Generic && Some(e.message()) == (
            if is_strict_name(groupname@) {
                strict_error(name@)
            } else {
                strict_error(groupname@)
            }),
    {
        match validate_name_strict(groupname.as_str()) {
            Err(e) => { return Err(e); },
            Ok(()) => {},
        }
        Self::impl_new(name, gecos, home_dir, shell, IdOrPath::UidGroupname(uid, groupname))
    }

    /// Create a new `CreateUserAndGroup` entry, using a filepath reference.
    pub fn new_with_path(
        name: String,
        path: PathBuf,
        gecos: String,
        home_dir: Option<PathBuf>,
        shell: Option<PathBuf>,
    ) -> (r: Result<Self, SdError>)
        ensures
            r is Ok <==> is_strict_name(name@),
            r matches Ok(e) ==> e.wf() && e@ == (CreateUserAndGroupView {
                name: name@,
                id: IdOrPathView::Path(path),
                gecos: gecos@,
                home_dir,
                shell,
            }),
            r matches Err(e) ==> e.kind() == ErrorKind::Generic && Some(e.message())
                == strict_error(name@),
    {
        Self::impl_new(name, gecos, home_dir, shell, IdOrPath::Path(path))
    }

    /// Create a new `CreateUserAndGroup` entry with the given ID entity.
    pub fn impl_new(
        name: String,
        gecos: String,
        home_dir: Option<PathBuf>,
        shell: Option<PathBuf>,
        id: IdOrPath,
    ) -> (r: Result<Self, SdError>)
        ensures
            r is Ok <==> is_strict_name(name@),
            r matches Ok(e) ==> e.wf() && e@ == (CreateUserAndGroupView {
                name: name@,
                id: id@,
                gecos: gecos@,
                home_dir,
                shell,
            }),
            r matches Err(e) ==> e.kind() == ErrorKind::Generic && Some(e.message())
                == strict_error(name@),
    {
        match validate_name_strict(name.as_str()) {
            Err(e) => { return Err(e); },
            Ok(()) => {},
        }
        Ok(Self { name, id, gecos, home_dir, shell })
    }

    /// Returns the name of the user.
    pub fn name(&self) -> (s: &str)
        ensures
            s@ == self@.name,
    {
        self.name.as_str()
    }

    /// Returns the ID entity of the user.
    pub fn id(&self) -> (id: &IdOrPath)
        ensures
            id@ == self@.id,
    {
        &self.id
    }

    /// Returns the descriptive text of the user.
    pub fn gecos(&self) -> (s: &str)
        ensures
            s@ == self@.gecos,
    {
        self.gecos.as_str()
    }

    /// Returns the home directory of the user, if one is set.
    pub fn home_dir(&self) -> (p: &Option<PathBuf>)
        ensures
            *p == self@.home_dir,
    {
        &self.home_dir
    }

    /// Returns the login shell of the user, if one is set.
    pub fn shell(&self) -> (p: &Option<PathBuf>)
        ensures
            *p == self@.shell,
    {
        &self.shell
    }
}

/// What the text of an ID entity says, whatever path it names.
pub ghost enum IdShape {
    /// `-`: the ID is picked automatically.
    Automatic,
    /// A text that starts with `/`: the ID is that of the file at this path.
    Path,
    /// A number: the ID.
    Id(u32),
    /// Two numbers: the ID of the user and the ID of the group.
    UidGid(u32, u32),
    /// A number and a name: the ID of the user and the name of the group.
    UidGroupname(u32, Seq<char>),
}

/// The parts of `parts` that are not empty, in their order.
pub open spec fn filled(parts: Seq<Seq<char>>) -> Seq<Seq<char>>
    decreases parts.len(),
{
    if parts.len() == 0 {
        Seq::empty()
    } else if parts.last().len() == 0 {
        filled(parts.drop_last())
    } else {
        filled(parts.drop_last()).push(parts.last())
    }
}

/// The text of the error for a text that is no ID of a user.
pub open spec fn unexpected_user_id_message(value: Seq<char>) -> Seq<char> {
    "unexpected user ID '"@ + value + "'"@
}

/// The text of the error for a text that is no ID of a group.
pub open spec fn unexpected_group_id_message(value: Seq<char>) -> Seq<char> {
    "unexpected group ID '"@ + value + "'"@
}

/// What the text `value` says of the ID of a group, or the text of the error.
pub open spec fn group_id_shape(value: Seq<char>) -> Result<IdShape, Seq<char>> {
    if value == "-"@ {
        Ok(IdShape::Automatic)
    } else if value.len() > 0 && value[0] == '/' {
        Ok(IdShape::Path)
    } else {
        match parse_unsigned(value, u32::MAX as nat) {
            Ok(gid) => Ok(IdShape::Id(gid as u32)),
            Err(_) => Err(unexpected_group_id_message(value)),
        }
    }
}

/// What the text `value` says of the ID of a user, or the text of the error.
///
/// Where the text is no `-`, no path and no number, it is to have two parts that are
/// not empty, with `:` between them. The first is the ID of the user. The second is
/// the ID of the group, or else its name.
pub open spec fn user_id_shape(value: Seq<char>) -> Result<IdShape, Seq<char>> {
    let tokens = filled(parts(value, ':'));
    if value == "-"@ {
        Ok(IdShape::Automatic)
    } else if value.len() > 0 && value[0] == '/' {
        Ok(IdShape::Path)
    } else if parse_unsigned(value, u32::MAX as nat) is Ok {
        Ok(IdShape::Id(parse_unsigned(value, u32::MAX as nat).unwrap() as u32))
    } else if tokens.len() == 2 {
        match parse_unsigned(tokens[0], u32::MAX as nat) {
            Err(_) => Err("invalid user id"@),
            Ok(uid) => match parse_unsigned(tokens[1], u32::MAX as nat) {
                Ok(gid) => Ok(IdShape::UidGid(uid as u32, gid as u32)),
                Err(_) => match strict_error(tokens[1]) {
                    Some(text) => Err(text),
                    None => Ok(IdShape::UidGroupname(uid as u32, tokens[1])),
                },
            },
        }
    } else {
        Err(unexpected_user_id_message(value))
    }
}

impl IdOrPathView {
    /// What the entity says, whatever path it names.
    pub open spec fn shape(self) -> IdShape {
        match self {
            IdOrPathView::Id(id) => IdShape::Id(id),
            IdOrPathView::UidGid(uid, gid) => IdShape::UidGid(uid, gid),
            IdOrPathView::UidGroupname(uid, name) => IdShape::UidGroupname(uid, name),
            IdOrPathView::Path(_) => IdShape::Path,
            IdOrPathView::Automatic => IdShape::Automatic,
        }
    }
}

impl GidOrPath {
    /// What the entity says, whatever path it names.
    pub open spec fn shape(self) -> IdShape {
        match self {
            GidOrPath::Gid(gid) => IdShape::Id(gid),
            GidOrPath::Path(_) => IdShape::Path,
            GidOrPath::Automatic => IdShape::Automatic,
        }
    }

    /// Reads the ID entity of a group from text.
    pub fn try_from(value: &str) -> (r: Result<Self, SdError>)
        ensures
            r matches Ok(id) ==> group_id_shape(value@) == Ok::<IdShape, Seq<char>>(id.shape()),
            r matches Err(e) ==> e.kind() == ErrorKind::Generic && group_id_shape(value@) == Err::<
                IdShape,
                Seq<char>,
            >(e.message()),
    {
        if same_text(value, "-") {
            return Ok(GidOrPath::Automatic);
        }
        if starts_with_slash(value) {
            return Ok(GidOrPath::Path(path_from(value)));
        }
        if let Ok(parsed_gid) = parse_u64(value, 0xffff_ffff) {
            return Ok(GidOrPath::Gid(parsed_gid as u32));
        }
        let mut msg = String::from_str("unexpected group ID '");
        msg.append(value);
        msg.append("'");
        Err(SdError::generic(msg))
    }
}

impl TryFrom<&str> for GidOrPath {
    type Error = SdError;

    fn try_from(value: &str) -> (r: Result<Self, Self::Error>)
        ensures
            r matches Ok(id) ==> group_id_shape(value@) == Ok::<IdShape, Seq<char>>(id.shape()),
            r matches Err(e) ==> e.kind() == ErrorKind::Generic && group_id_shape(value@) == Err::<
                IdShape,
                Seq<char>,
            >(e.message()),
    {
        GidOrPath::try_from(value)
    }
}

impl TryFromSpecImpl<&str> for GidOrPath {
    /// A path and an error are not known as values, so `try_from` states what it makes
    /// in its own contract.
    open spec fn obeys_try_from_spec() -> bool {
        false
    }

    closed spec fn try_from_spec(value: &str) -> Result<Self, Self::Error> {
        arbitrary()
    }
}

impl TryFrom<&str> for IdOrPath {
    type Error = SdError;

    fn try_from(value: &str) -> (r: Result<Self, Self::Error>)
        ensures
            r matches Ok(id) ==> user_id_shape(value@) == Ok::<IdShape, Seq<char>>(id@.shape()),
            r matches Err(e) ==> e.kind() == ErrorKind::Generic && user_id_shape(value@) == Err::<
                IdShape,
                Seq<char>,
            >(e.message()),
    {
        IdOrPath::try_from(value)
    }
}

impl TryFromSpecImpl<&str> for IdOrPath {
    /// A path and an error are not known as values, so `try_from` states what it makes
    /// in its own contract.
    open spec fn obeys_try_from_spec() -> bool {
        false
    }

    closed spec fn try_from_spec(value: &str) -> Result<Self, Self::Error> {
        arbitrary()
    }
}

/// Tells whether `value` starts with `/`.
fn starts_with_slash(value: &str) -> (b: bool)
    ensures
        b == (value@.len() > 0 && value@[0] == '/'),
{
    for c in it: value.chars()
        invariant
            it.seq() == value@,
            it.index() == 0,
    {
        return c == '/';
    }
    false
}

/// Collects the texts of `parts` that are not empty.
fn keep_filled(parts: &Vec<String>) -> (out: Vec<String>)
    ensures
        views(out@) == filled(views(parts@)),
{
    let mut out: Vec<String> = Vec::new();
    let mut i: usize = 0;
    while i < parts.len()
        invariant
            i <= parts@.len(),
            views(out@) == filled(views(parts@).take(i as int)),
        decreases parts@.len() - i,
    {
        let ghost before = views(parts@).take(i as int);
        let ghost after = views(parts@).take(i + 1);
        proof {
            assert(after.drop_last() =~= before);
        }
        if !parts[i].as_str().is_empty() {
            out.push(parts[i].clone());
        }
        i = i + 1;
    }
    assert(views(parts@).take(i as int) =~= views(parts@));
    out
}

impl IdOrPath {
    /// Reads the ID entity of a user from text.
    pub fn try_from(value: &str) -> (r: Result<Self, SdError>)
        ensures
            r matches Ok(id) ==> user_id_shape(value@) == Ok::<IdShape, Seq<char>>(id@.shape()),
            r matches Err(e) ==> e.kind() == ErrorKind::Generic && user_id_shape(value@) == Err::<
                IdShape,
                Seq<char>,
            >(e.message()),
    {
        if same_text(value, "-") {
            return Ok(IdOrPath::Automatic);
        }
        if starts_with_slash(value) {
            return Ok(IdOrPath::Path(path_from(value)));
        }
        if let Ok(single_id) = parse_u64(value, 0xffff_ffff) {
            return Ok(IdOrPath::Id(single_id as u32));
        }
        let tokens = keep_filled(&split(value, ':'));
        if tokens.len() == 2 {
            let uid = match parse_u64(tokens[0].as_str(), 0xffff_ffff) {
                Ok(uid) => uid as u32,
                Err(_) => { return Err(SdError::generic(String::from_str("invalid user id"))); },
            };
            let id = match parse_u64(tokens[1].as_str(), 0xffff_ffff) {
                Ok(gid) => IdOrPath::UidGid(uid, gid as u32),
                _ => {
                    let groupname = tokens[1].clone();
                    match validate_name_strict(groupname.as_str()) {
                        Err(e) => { return Err(e); },
                        Ok(()) => {},
                    }
                    IdOrPath::UidGroupname(uid, groupname)
                },
            };
            return Ok(id);
        }
        let mut msg = String::from_str("unexpected user ID '");
        msg.append(value);
        msg.append("'");
        Err(SdError::generic(msg))
    }
}

/// Whether `c` may start a sysusers name: an ASCII letter or `_`.
pub open spec fn is_name_start(c: char) -> bool {
    ('a' <= c && c <= 'z') || ('A' <= c && c <= 'Z') || c == '_'
}

/// Whether `c` may stand after the start of a sysusers name: an ASCII letter or digit,
/// `_` or `-`.
pub open spec fn is_name_char(c: char) -> bool {
    ('a' <= c && c <= 'z') || ('A' <= c && c <= 'Z') || ('0' <= c && c <= '9') || c == '_' || c
        == '-'
}

/// Whether the character at position `i` of `name` is allowed there.
pub open spec fn name_char_allowed(name: Seq<char>, i: int) -> bool {
    if i == 0 {
        is_name_start(name[i])
    } else {
        is_name_char(name[i])
    }
}

/// The position of the first character of `name`, from `from` on, that is not allowed
/// where it stands; the length of `name` if there is none.
pub open spec fn first_rejected(name: Seq<char>, from: int) -> int
    decreases name.len() - from,
{
    if from < 0 || from >= name.len() {
        name.len() as int
    } else if !name_char_allowed(name, from) {
        from
    } else {
        first_rejected(name, from + 1)
    }
}

/// The text of the error for a name of more than 31 bytes.
pub open spec fn overlong_name_message(name: Seq<char>) -> Seq<char> {
    "overlong sysusers name '"@ + name + "' (more than 31 characters)"@
}

/// The text of the error for a name whose first character `c` may not start a name.
pub open spec fn invalid_start_message(c: char, name: Seq<char>) -> Seq<char> {
    "invalid starting character '"@.push(c) + "' in sysusers name '"@ + name + "'"@
}

/// The text of the error for a name that holds, after its start, a character `c` that
/// no name may hold.
pub open spec fn invalid_char_message(c: char, name: Seq<char>) -> Seq<char> {
    "invalid character '"@.push(c) + "' in sysusers name '"@ + name + "'"@
}

/// What strict validation says against `name`, whose UTF-8 encoding is `byte_len` bytes
/// long: the text of the first complaint, or `None` for a valid name.
///
/// The tests come in this order: the name is not empty; it has at most 31 bytes; each
/// character, from the first on, is allowed where it stands.
pub open spec fn name_strict_error(name: Seq<char>, byte_len: nat) -> Option<Seq<char>> {
    let bad = first_rejected(name, 0);
    if name.len() == 0 {
        Some("empty name"@)
    } else if byte_len > 31 {
        Some(overlong_name_message(name))
    } else if bad == 0 {
        Some(invalid_start_message(name[0], name))
    } else if bad < name.len() {
        Some(invalid_char_message(name[bad], name))
    } else {
        None
    }
}

/// What strict validation says against `name`: see [`name_strict_error`].
pub open spec fn strict_error(name: Seq<char>) -> Option<Seq<char>> {
    name_strict_error(name, encode_utf8(name).len())
}

/// Whether `name` passes strict validation.
pub open spec fn is_strict_name(name: Seq<char>) -> bool {
    strict_error(name) is None
}

/// Tells whether `c` may start a sysusers name.
fn may_start_name(c: char) -> (b: bool)
    ensures
        b == is_name_start(c),
{
    ('a' <= c && c <= 'z') || ('A' <= c && c <= 'Z') || c == '_'
}

/// Tells whether `c` may stand after the start of a sysusers name.
fn may_continue_name(c: char) -> (b: bool)
    ensures
        b == is_name_char(c),
{
    ('a' <= c && c <= 'z') || ('A' <= c && c <= 'Z') || ('0' <= c && c <= '9') || c == '_' || c
        == '-'
}

/// Builds `head`, the character `c`, `middle`, `name` and a closing quote, in one text.
fn quote_char_in_name(head: &str, c: char, middle: &str, name: &str) -> (s: String)
    ensures
        s@ == head@.push(c) + middle@ + name@ + "'"@,
{
    let mut s = String::from_str(head);
    push_char(&mut s, c);
    s.append(middle);
    s.append(name);
    s.append("'");
    s
}

/// Validate a sysusers name in strict mode.
pub fn validate_name_strict(input: &str) -> (r: Result<(), SdError>)
    ensures
        r is Ok <==> is_strict_name(input@),
        r matches Err(e) ==> e.kind() == ErrorKind::Generic && Some(e.message()) == strict_error(
            input@,
        ),
{
    if input.is_empty() {
        return Err(SdError::generic(String::from_str("empty name")));
    }
    if input.as_bytes().len() > 31 {
        let mut msg = String::from_str("overlong sysusers name '");
        msg.append(input);
        msg.append("' (more than 31 characters)");
        return Err(SdError::generic(msg));
    }
    let mut first = true;
    for ch in it: input.chars()
        invariant
            it.seq() == input@,
            first <==> it.index() == 0,
            input@.len() > 0,
            input.spec_bytes().len() <= 31,
            first_rejected(input@, 0) == first_rejected(input@, it.index() as int),
    {
        if first {
            if !may_start_name(ch) {
                let msg = quote_char_in_name(
                    "invalid starting character '",
                    ch,
                    "' in sysusers name '",
                    input,
                );
                return Err(SdError::generic(msg));
            }
        } else if !may_continue_name(ch) {
            let msg = quote_char_in_name("invalid character '", ch, "' in sysusers name '", input);
            return Err(SdError::generic(msg));
        }
        first = false;
    }
    Ok(())
}

} // verus!
