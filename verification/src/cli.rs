//! What the command line asks for, and what the maintenance commands do to
//! the identity store and say about it.
use crate::db::user_groups::UserGroupInfoView;
use crate::db::users::{add_user_outcome, UserInfo, UserInfoView};
use crate::db::{MapDB, MapDBView, DEFAULT_GUEST_NAME};
use crate::db::crypto::{is_random_token, SALT_LENGTH, SECRET_LENGTH};
use crate::text::{push_char, str_equal, str_view};
use vstd::prelude::*;

verus! {

/// The options of the command line, as they were given. A switch is
/// `true` when it is present; an option with a value is `Some` when it is
/// present.
#[derive(Debug)]
pub struct CliArgs {
    pub address: Option<String>,
    pub port: Option<String>,
    pub no_auth_api: bool,
    pub add_group: bool,
    pub edit_group: bool,
    pub add_user: bool,
    pub add_to_group: bool,
    pub list_guests: bool,
    pub list_users: bool,
    pub list_groups: bool,
    pub test: bool,
    pub group: Option<String>,
    pub user: Option<String>,
    pub permissions: Option<String>,
}

/// What the program is to do.
#[derive(Debug)]
pub enum CliCommand {
    AddUser { user: String },
    ListGuests,
    ListUsers,
    ListGroups,
    AddToGroup { user: String, group: String },
    AddGroup { group: String, permissions: String },
    EditGroup { group: String, permissions: String },
    Test,
    Serve { address: String, port: i32, no_auth_api: bool },
}

/// The mathematical content of a [`CliCommand`].
pub enum CliCommandView {
    AddUser { user: Seq<char> },
    ListGuests,
    ListUsers,
    ListGroups,
    AddToGroup { user: Seq<char>, group: Seq<char> },
    AddGroup { group: Seq<char>, permissions: Seq<char> },
    EditGroup { group: Seq<char>, permissions: Seq<char> },
    Test,
    Serve { address: Seq<char>, port: i32, no_auth_api: bool },
}

impl View for CliCommand {
    type V = CliCommandView;

    open spec fn view(&self) -> CliCommandView {
        match self {
            CliCommand::AddUser { user } => CliCommandView::AddUser { user: user@ },
            CliCommand::ListGuests => CliCommandView::ListGuests,
            CliCommand::ListUsers => CliCommandView::ListUsers,
            CliCommand::ListGroups => CliCommandView::ListGroups,
            CliCommand::AddToGroup { user, group } => CliCommandView::AddToGroup {
                user: user@,
                group: group@,
            },
            CliCommand::AddGroup { group, permissions } => CliCommandView::AddGroup {
                group: group@,
                permissions: permissions@,
            },
            CliCommand::EditGroup { group, permissions } => CliCommandView::EditGroup {
                group: group@,
                permissions: permissions@,
            },
            CliCommand::Test => CliCommandView::Test,
            CliCommand::Serve { address, port, no_auth_api } => CliCommandView::Serve {
                address: address@,
                port: *port,
                no_auth_api: *no_auth_api,
            },
        }
    }
}

/// The number that the text of a port stands for, as `str::parse::<i32>`
/// of std reads it, or `None` where it reads none.
pub uninterp spec fn parsed_i32(text: Seq<char>) -> Option<i32>;

/// `str::parse::<i32>` of std: the number that `text` stands for, which is
/// a function of the characters alone; `None` where std reports an error.
#[verifier::external_body]
fn parse_i32(text: &str) -> (value: Option<i32>)
    ensures
        value == parsed_i32(text@),
{
    text.parse::<i32>().ok()
}

/// The complaint about a group or user command without a user or a group.
pub const NEEDS_USER_AND_GROUP: &'static str = "Error: Must specify --user <USER> & --group <GROUP>";

/// The complaint about a group command without a group or permissions.
pub const NEEDS_GROUP_AND_PERMISSIONS: &'static str =
    "Error: Must specify --permissions <permissions> & --group <GROUP>";

/// The complaint about adding a user without naming one.
pub const NEEDS_USER: &'static str = "Error: Must specify --user <USER> to add";

impl CliArgs {
    /// The complaint about these options, if they leave out what a
    /// command needs. The commands are looked at in a fixed order and the
    /// first complaint is given.
    pub open spec fn spec_complaint(&self) -> Option<Seq<char>> {
        if self.add_to_group && (self.user is None || self.group is None) {
            Some(NEEDS_USER_AND_GROUP@)
        } else if self.add_group && (self.group is None || self.permissions is None) {
            Some(NEEDS_GROUP_AND_PERMISSIONS@)
        } else if self.edit_group && (self.group is None || self.permissions is None) {
            Some(NEEDS_GROUP_AND_PERMISSIONS@)
        } else if self.add_user && self.user is None {
            Some(NEEDS_USER@)
        } else {
            None
        }
    }

    /// The port to listen on: the number the option stands for, `-1`
    /// where the option is missing or stands for none.
    pub open spec fn spec_port(&self) -> i32 {
        match self.port {
            Some(text) => match parsed_i32(text@) {
                Some(port) => port,
                None => -1i32,
            },
            None => -1i32,
        }
    }

    /// What the program is to do. The commands are looked at in a fixed
    /// order; where none is asked for, the server runs.
    pub open spec fn spec_command(&self) -> CliCommandView {
        if self.add_user && self.user is Some {
            CliCommandView::AddUser { user: self.user->0@ }
        } else if self.list_guests {
            CliCommandView::ListGuests
        } else if self.list_users {
            CliCommandView::ListUsers
        } else if self.list_groups {
            CliCommandView::ListGroups
        } else if self.add_to_group && self.user is Some && self.group is Some {
            CliCommandView::AddToGroup { user: self.user->0@, group: self.group->0@ }
        } else if self.add_group && self.group is Some && self.permissions is Some {
            CliCommandView::AddGroup { group: self.group->0@, permissions: self.permissions->0@ }
        } else if self.edit_group && self.group is Some && self.permissions is Some {
            CliCommandView::EditGroup { group: self.group->0@, permissions: self.permissions->0@ }
        } else if self.test {
            CliCommandView::Test
        } else {
            CliCommandView::Serve {
                address: match self.address {
                    Some(address) => address@,
                    None => Seq::empty(),
                },
                port: self.spec_port(),
                no_auth_api: self.no_auth_api,
            }
        }
    }
}

/// The maintenance commands of the command line.
pub struct CLICommands {}

impl CLICommands {
    /// Checks that the options hold what the commands among them need.
    /// Returns the complaint to print, or `None` where they are in order.
    pub fn cli_arg_check(args: &CliArgs) -> (complaint: Option<&'static str>)
        ensures
            str_view(complaint) == args.spec_complaint(),
    {
        if args.add_to_group && (args.user.is_none() || args.group.is_none()) {
            Some(NEEDS_USER_AND_GROUP)
        } else if args.add_group && (args.group.is_none() || args.permissions.is_none()) {
            Some(NEEDS_GROUP_AND_PERMISSIONS)
        } else if args.edit_group && (args.group.is_none() || args.permissions.is_none()) {
            Some(NEEDS_GROUP_AND_PERMISSIONS)
        } else if args.add_user && args.user.is_none() {
            Some(NEEDS_USER)
        } else {
            None
        }
    }

    /// The port that the options ask for.
    pub fn cli_port(args: &CliArgs) -> (port: i32)
        ensures
            port == args.spec_port(),
    {
        match &args.port {
            Some(text) => match parse_i32(text.as_str()) {
                Some(port) => port,
                None => -1,
            },
            None => -1,
        }
    }

    /// What the program is to do with these options.
    pub fn cli_command(args: &CliArgs) -> (command: CliCommand)
        ensures
            command@ == args.spec_command(),
    {
        if args.add_user && args.user.is_some() {
            return CliCommand::AddUser { user: Self::text_of(&args.user) };
        }
        if args.list_guests {
            return CliCommand::ListGuests;
        }
        if args.list_users {
            return CliCommand::ListUsers;
        }
        if args.list_groups {
            return CliCommand::ListGroups;
        }
        if args.add_to_group && args.user.is_some() && args.group.is_some() {
            return CliCommand::AddToGroup {
                user: Self::text_of(&args.user),
                group: Self::text_of(&args.group),
            };
        }
        if args.add_group && args.group.is_some() && args.permissions.is_some() {
            return CliCommand::AddGroup {
                group: Self::text_of(&args.group),
                permissions: Self::text_of(&args.permissions),
            };
        }
        if args.edit_group && args.group.is_some() && args.permissions.is_some() {
            return CliCommand::EditGroup {
                group: Self::text_of(&args.group),
                permissions: Self::text_of(&args.permissions),
            };
        }
        if args.test {
            return CliCommand::Test;
        }
        CliCommand::Serve {
            address: Self::text_of(&args.address),
            port: Self::cli_port(args),
            no_auth_api: args.no_auth_api,
        }
    }

    /// The value of an option, or the empty string where it is missing.
    fn text_of(option: &Option<String>) -> (text: String)
        ensures
            text@ == (match option {
                Some(s) => s@,
                None => Seq::empty(),
            }),
    {
        match option {
            Some(s) => s.clone(),
            None => String::new(),
        }
    }

    /// Adds a user under a fresh salt and secret. Returns whether the user
    /// was added: the user is added exactly when the store can add a user
    /// of that name with the secret that was drawn, and else the store
    /// stays as it was. A name that is taken is refused before anything is
    /// drawn.
    pub fn add_user_to_db(db: &mut MapDB, username: &str, password: &str) -> (added: bool)
        requires
            old(db).wf(),
        ensures
            final(db).wf(),
            old(db)@.is_user(username@) ==> !added && final(db)@ == old(db)@,
            exists|salt: Seq<char>, totp_secret: Seq<char>|
                is_random_token(salt, SALT_LENGTH as nat) && is_random_token(
                    totp_secret,
                    SECRET_LENGTH as nat,
                ) && #[trigger] spec_user_added(
                    old(db)@,
                    final(db)@,
                    username@,
                    password@,
                    salt,
                    totp_secret,
                    added,
                ),
    {
        if db.is_user(username) {
            proof {
                let salt = Seq::new(SALT_LENGTH as nat, |i: int| 'A');
                let totp_secret = Seq::new(SECRET_LENGTH as nat, |i: int| 'A');
                assert(is_random_token(salt, SALT_LENGTH as nat));
                assert(is_random_token(totp_secret, SECRET_LENGTH as nat));
                assert(spec_user_added(db@, db@, username@, password@, salt, totp_secret, false));
            }
            return false;
        }
        let ghost before = db@;
        let outcome = db.add_user(username, password);
        proof {
            let (salt, totp_secret) = choose|salt: Seq<char>, totp_secret: Seq<char>|
                is_random_token(salt, SALT_LENGTH as nat) && is_random_token(
                    totp_secret,
                    SECRET_LENGTH as nat,
                ) && #[trigger] add_user_outcome(
                    before,
                    db@,
                    username@,
                    password@,
                    salt,
                    totp_secret,
                    outcome,
                );
            assert(spec_user_added(
                before,
                db@,
                username@,
                password@,
                salt,
                totp_secret,
                outcome is Ok,
            ));
        }
        outcome.is_ok()
    }

    /// The line that lists a user: the name, the group and the group's
    /// permissions.
    pub fn user_line(user: &UserInfo) -> (line: String)
        ensures
            line@ == spec_user_line(user@),
    {
        let mut line = user.username.clone();
        line.append(", (");
        line.append(user.group.group_name.as_str());
        line.append(" permissions: '");
        line.append(user.group.permissions.as_str());
        line.append("')");
        line
    }

    /// The listing of every user: a heading, then a line for each user in
    /// the order of the identifiers.
    pub fn list_all_users(db: &MapDB) -> (lines: Vec<String>)
        requires
            db.wf(),
        ensures
            lines_view(lines@) == spec_user_listing(
                "All users:"@,
                db@,
                db@.users.len(),
                false,
            ),
    {
        Self::list_users_where("All users:", db, false)
    }

    /// The listing of the users of the group `guest`: a heading, then a
    /// line for each of them in the order of the identifiers.
    pub fn list_guests(db: &MapDB) -> (lines: Vec<String>)
        requires
            db.wf(),
        ensures
            lines_view(lines@) == spec_user_listing(
                "All guest users:"@,
                db@,
                db@.users.len(),
                true,
            ),
    {
        Self::list_users_where("All guest users:", db, true)
    }

    /// A heading, then a line for each user, or for each guest only.
    fn list_users_where(heading: &str, db: &MapDB, guests_only: bool) -> (lines: Vec<String>)
        requires
            db.wf(),
        ensures
            lines_view(lines@) == spec_user_listing(heading@, db@, db@.users.len(), guests_only),
    {
        let users = db.get_all_users();
        let mut lines: Vec<String> = Vec::new();
        lines.push(heading.to_owned());
        let mut i: usize = 0;
        while i < users.len()
            invariant
                i <= users.len(),
                users@.len() == db@.users.len(),
                forall|k: int|
                    0 <= k < users@.len() ==> (#[trigger] users@[k])@ == db@.user_info(
                        db@.users[k],
                    ),
                lines_view(lines@) == spec_user_listing(heading@, db@, i as nat, guests_only),
            decreases users.len() - i,
        {
            let ghost before = lines_view(lines@);
            if !guests_only || str_equal(users[i].group.group_name.as_str(), DEFAULT_GUEST_NAME) {
                let line = Self::user_line(&users[i]);
                lines.push(line);
            }
            i += 1;
        }
        lines
    }

    /// The listing of every group: a heading, then a line for each group
    /// in the order of the identifiers.
    pub fn list_all_groups(db: &MapDB) -> (lines: Vec<String>)
        requires
            db.wf(),
        ensures
            lines_view(lines@) == spec_group_listing(db@, db@.user_groups.len()),
    {
        let groups = db.get_all_user_groups();
        let mut lines: Vec<String> = Vec::new();
        lines.push("All groups:".to_owned());
        let mut i: usize = 0;
        while i < groups.len()
            invariant
                i <= groups.len(),
                groups@.len() == db@.user_groups.len(),
                forall|k: int|
                    0 <= k < groups@.len() ==> (#[trigger] groups@[k])@ == db@.user_groups[k],
                lines_view(lines@) == spec_group_listing(db@, i as nat),
            decreases groups.len() - i,
        {
            let ghost before = lines_view(lines@);
            let mut line = groups[i].group_name.clone();
            line.append(": Permissions: '");
            line.append(groups[i].permissions.as_str());
            push_char(&mut line, '\'');
            assert(line@ =~= spec_group_line(groups@[i as int]@));
            lines.push(line);
            i += 1;
        }
        lines
    }

    /// Moves a user to a group, by their names, and says what was done.
    /// An unknown user is named before an unknown group, and either
    /// leaves the store as it was.
    pub fn add_user_to_group(db: &mut MapDB, username: &str, group_name: &str) -> (report: String)
        requires
            old(db).wf(),
        ensures
            final(db).wf(),
            !old(db)@.is_user(username@) ==> report@ == "Invalid username"@ && final(db)@ == old(db)@,
            old(db)@.is_user(username@) && !old(db)@.is_user_group(group_name@) ==> report@
                == "Invalid group"@ && final(db)@ == old(db)@,
            old(db)@.is_user(username@) && old(db)@.is_user_group(group_name@) ==> report@
                == "User '"@ + username@ + "' added to group '"@ + group_name@ + "'"@ && final(db)@ == old(db)@.with_user_in_group(
                old(db)@.user(username@).id,
                old(db)@.group_by_name(group_name@).id,
            ),
    {
        if !db.is_user(username) {
            return "Invalid username".to_owned();
        }
        if !db.is_user_group(group_name) {
            return "Invalid group".to_owned();
        }
        let user_id = db.get_user_id(username);
        let group_id = db.get_user_group_id(group_name);
        db.add_user_to_group(user_id, group_id);
        let mut report = "User '".to_owned();
        report.append(username);
        report.append("' added to group '");
        report.append(group_name);
        report.append("'");
        report
    }

    /// Adds a group and says what was done. A name that is taken leaves
    /// the store as it was.
    pub fn add_user_group(db: &mut MapDB, group_name: &str, permissions: &str) -> (report: String)
        requires
            old(db).wf(),
        ensures
            final(db).wf(),
            old(db)@.is_user_group(group_name@) ==> report@ == "'"@ + group_name@
                + "' is already a group!"@ && final(db)@ == old(db)@,
            !old(db)@.is_user_group(group_name@) ==> report@ == "Added group '"@ + group_name@
                + "'"@,
            old(db)@.can_add_group(group_name@) ==> final(db)@ == old(db)@.with_group(
                group_name@,
                permissions@,
            ),
            !old(db)@.can_add_group(group_name@) ==> final(db)@ == old(db)@,
    {
        if db.is_user_group(group_name) {
            let mut report = "'".to_owned();
            report.append(group_name);
            report.append("' is already a group!");
            return report;
        }
        db.add_user_group(group_name, permissions);
        let mut report = "Added group '".to_owned();
        report.append(group_name);
        report.append("'");
        report
    }

    /// Replaces the permissions of a group and says what was done. An
    /// unknown group leaves the store as it was.
    pub fn edit_user_group(db: &mut MapDB, group_name: &str, permissions: &str) -> (report: String)
        requires
            old(db).wf(),
        ensures
            final(db).wf(),
            !old(db)@.is_user_group(group_name@) ==> report@ == "'"@ + group_name@
                + "' must already be a group to edit it."@ && final(db)@ == old(db)@,
            old(db)@.is_user_group(group_name@) ==> report@ == "Edited group '"@ + group_name@
                + "', new permissions: "@ + permissions@ && final(db)@ == old(db)@.with_permissions(group_name@, permissions@),
    {
        if !db.is_user_group(group_name) {
            let mut report = "'".to_owned();
            report.append(group_name);
            report.append("' must already be a group to edit it.");
            return report;
        }
        db.edit_user_group(group_name, permissions);
        let mut report = "Edited group '".to_owned();
        report.append(group_name);
        report.append("', new permissions: ");
        report.append(permissions);
        report
    }
}

/// What adding a user from the command line does, for the salt and the
/// secret that were drawn: where the store can add a user of that name
/// with that secret, the user is added under the next identifier, with
/// the digest of the password under the salt, in the group `guest`; else
/// nothing is added and the store stays as it was.
pub open spec fn spec_user_added(
    before: MapDBView,
    after: MapDBView,
    username: Seq<char>,
    password: Seq<char>,
    salt: Seq<char>,
    totp_secret: Seq<char>,
    added: bool,
) -> bool {
    if before.can_add_user(username, totp_secret) {
        added && after == before.with_user(
            before.new_row(username, password, salt, totp_secret),
        )
    } else {
        !added && after == before
    }
}

/// The characters of each line.
pub open spec fn lines_view(lines: Seq<String>) -> Seq<Seq<char>> {
    Seq::new(lines.len(), |i: int| lines[i]@)
}

/// The line that lists a user.
pub open spec fn spec_user_line(user: UserInfoView) -> Seq<char> {
    user.username + ", ("@ + user.group.group_name + " permissions: '"@ + user.group.permissions
        + "')"@
}

/// The line that lists a group.
pub open spec fn spec_group_line(group: UserGroupInfoView) -> Seq<char> {
    group.group_name + ": Permissions: '"@ + group.permissions + seq!['\'']
}

/// A heading and the lines of the first `count` users, in table order; of
/// those only that are in the group `guest`, if `guests_only`.
pub open spec fn spec_user_listing(
    heading: Seq<char>,
    db: MapDBView,
    count: nat,
    guests_only: bool,
) -> Seq<Seq<char>>
    decreases count,
{
    if count == 0 {
        seq![heading]
    } else {
        let earlier = spec_user_listing(heading, db, (count - 1) as nat, guests_only);
        let user = db.user_info(db.users[count - 1]);
        if !guests_only || user.group.group_name == DEFAULT_GUEST_NAME@ {
            earlier.push(spec_user_line(user))
        } else {
            earlier
        }
    }
}

/// The heading and the lines of the first `count` groups, in table order.
pub open spec fn spec_group_listing(db: MapDBView, count: nat) -> Seq<Seq<char>>
    decreases count,
{
    if count == 0 {
        seq!["All groups:"@]
    } else {
        spec_group_listing(db, (count - 1) as nat).push(spec_group_line(db.user_groups[count - 1]))
    }
}

} // verus!
