//! The commands of the command line and the builders that collect their
//! arguments, one value or flag at a time.

use vstd::prelude::*;
use crate::commit::CommitTag;
use crate::text::{opt_seq, parse_usize, parsed_usize, str_eq, trim};
use crate::commit::{add_tag_message, kept_text, lower_of, remove_tag_all_message, remove_tag_message, trailer, with_trailer};
use crate::input::{email_valid, valid_cc_list};
use crate::repo::{RepoMetadata, has_series, lemma_series_index, series_index, without_series};
use crate::series::{valid_name, valid_title, valid_short_name, log_line, describe_series, render_series, revision_exists, Series, SeriesLog, SeriesModel};
use crate::sender::GitPatchSender;
use crate::text::{chars_of, decimal, decimal_chars, extend_chars, lines_of, string_of, trimmed};
use crate::user_data::{list_index, repo_known, valid_list_name, ConfigModel, UserData};

verus! {

pub const VERBOSE: &'static str = "v";
pub const HELP: &'static str = "h";

pub const LIST_SERIES: &'static str = "list";
pub const REGISTER_REPO: &'static str = "register";
pub const DELETE_REPO: &'static str = "delrepo";
pub const LIST_REPOS: &'static str = "repos";
pub const CREATE_SERIES: &'static str = "create";
pub const DELETE_SERIES: &'static str = "delete";
pub const EDIT_SERIES: &'static str = "edit";
pub const CONFIGURE: &'static str = "config";
pub const ADD_REVISION: &'static str = "addrev";
pub const DELETE_REVISION: &'static str = "delrev";
pub const EDIT_REVISION: &'static str = "editrev";
pub const SEND_SERIES: &'static str = "send";
pub const SHOW_SERIES: &'static str = "show";
pub const ADD_LIST: &'static str = "addlist";
pub const DELETE_LIST: &'static str = "dellist";
pub const CLEAN_TMP: &'static str = "cleantmp";
pub const EDIT_CV_SKEL: &'static str = "editcv";
pub const TAG: &'static str = "tag";
pub const UNTAG: &'static str = "untag";

/// Why a builder refused an argument or could not build its command.
#[derive(Debug, Clone, Copy, PartialEq, Eq, Structural)]
pub enum CommandBuilderErrorCode {
    UnknownFlag,
    UnexpectedValue,
    MissingValue,
    IncompatibleValues,
    InvalidValues,
}

/// A refusal of a builder, with the argument or a message.
#[derive(Debug)]
pub struct CommandBuilderError {
    code: CommandBuilderErrorCode,
    message: String,
}

impl CommandBuilderError {
    pub closed spec fn spec_code(&self) -> CommandBuilderErrorCode {
        self.code
    }

    pub closed spec fn spec_message(&self) -> Seq<char> {
        self.message@
    }

    pub fn new(code: CommandBuilderErrorCode, message: String) -> (r: Self)
        ensures
            r.spec_code() == code,
            r.spec_message() == message@,
    {
        Self { code, message }
    }

    pub fn code(&self) -> (r: CommandBuilderErrorCode)
        ensures
            r == self.spec_code(),
    {
        self.code
    }

    pub fn message(&self) -> (r: &str)
        ensures
            r@ == self.spec_message(),
    {
        self.message.as_str()
    }

    pub fn message_move(self) -> (r: String)
        ensures
            r@ == self.spec_message(),
    {
        self.message
    }

    /// A value that the command does not take.
    pub fn unexpected_value(value: &str) -> (r: Self)
        ensures
            r.spec_code() == CommandBuilderErrorCode::UnexpectedValue,
            r.spec_message() == value@,
    {
        CommandBuilderError::new(CommandBuilderErrorCode::UnexpectedValue, value.to_owned())
    }

    /// A flag that the command does not know.
    pub fn unknown_flag(flag: &str) -> (r: Self)
        ensures
            r.spec_code() == CommandBuilderErrorCode::UnknownFlag,
            r.spec_message() == flag@,
    {
        CommandBuilderError::new(CommandBuilderErrorCode::UnknownFlag, flag.to_owned())
    }

    /// An argument that is missing to build the command.
    pub fn missing(message: &str) -> (r: Self)
        ensures
            r.spec_code() == CommandBuilderErrorCode::MissingValue,
            r.spec_message() == message@,
    {
        CommandBuilderError::new(CommandBuilderErrorCode::MissingValue, message.to_owned())
    }
}

/// Which field of a series an edit changes.
#[derive(Debug, Clone, Copy, PartialEq, Eq, Structural)]
pub enum EditSeriesTarget {
    Name,
    Title,
    Cv,
    ShortName,
    Cc,
}

impl EditSeriesTarget {
    /// The target a word names: `name`, `title`, `cv`, `short` or `cc`.
    pub fn try_from_str(value: &str) -> (r: Option<EditSeriesTarget>)
        ensures
            r == if value@ == "name"@ {
                Some(EditSeriesTarget::Name)
            } else if value@ == "title"@ {
                Some(EditSeriesTarget::Title)
            } else if value@ == "cv"@ {
                Some(EditSeriesTarget::Cv)
            } else if value@ == "short"@ {
                Some(EditSeriesTarget::ShortName)
            } else if value@ == "cc"@ {
                Some(EditSeriesTarget::Cc)
            } else {
                None
            },
    {
        if str_eq(value, "name") {
            Some(EditSeriesTarget::Name)
        } else if str_eq(value, "title") {
            Some(EditSeriesTarget::Title)
        } else if str_eq(value, "cv") {
            Some(EditSeriesTarget::Cv)
        } else if str_eq(value, "short") {
            Some(EditSeriesTarget::ShortName)
        } else if str_eq(value, "cc") {
            Some(EditSeriesTarget::Cc)
        } else {
            None
        }
    }
}

/// A setting of the user's configuration.
#[derive(Debug, Clone, Copy, PartialEq, Eq, Structural)]
pub enum ConfigOption {
    Editor,
    SendCommand,
    FromEmail,
    SmtpServer,
    SmtpUser,
    SmtpPort,
    SmtpEncryption,
}

impl ConfigOption {
    /// The setting a word names.
    pub fn try_from_str(value: &str) -> (r: Option<ConfigOption>)
        ensures
            r == if value@ == "editor"@ {
                Some(ConfigOption::Editor)
            } else if value@ == "sendcmd"@ {
                Some(ConfigOption::SendCommand)
            } else if value@ == "from"@ {
                Some(ConfigOption::FromEmail)
            } else if value@ == "smtpserver"@ {
                Some(ConfigOption::SmtpServer)
            } else if value@ == "smtpuser"@ {
                Some(ConfigOption::SmtpUser)
            } else if value@ == "smtpport"@ {
                Some(ConfigOption::SmtpPort)
            } else if value@ == "smtpenc"@ {
                Some(ConfigOption::SmtpEncryption)
            } else {
                None
            },
    {
        if str_eq(value, "editor") {
            Some(ConfigOption::Editor)
        } else if str_eq(value, "sendcmd") {
            Some(ConfigOption::SendCommand)
        } else if str_eq(value, "from") {
            Some(ConfigOption::FromEmail)
        } else if str_eq(value, "smtpserver") {
            Some(ConfigOption::SmtpServer)
        } else if str_eq(value, "smtpuser") {
            Some(ConfigOption::SmtpUser)
        } else if str_eq(value, "smtpport") {
            Some(ConfigOption::SmtpPort)
        } else if str_eq(value, "smtpenc") {
            Some(ConfigOption::SmtpEncryption)
        } else {
            None
        }
    }

    /// How the setting is named in messages.
    pub fn describe(&self) -> (r: &'static str)
        ensures
            r@ == match *self {
                ConfigOption::Editor => "editor"@,
                ConfigOption::SendCommand => "send command"@,
                ConfigOption::FromEmail => "source email"@,
                ConfigOption::SmtpServer => "smtp server"@,
                ConfigOption::SmtpUser => "smtp user"@,
                ConfigOption::SmtpPort => "smtp port"@,
                ConfigOption::SmtpEncryption => "smtp encryption"@,
            },
    {
        match self {
            ConfigOption::Editor => "editor",
            ConfigOption::SendCommand => "send command",
            ConfigOption::FromEmail => "source email",
            ConfigOption::SmtpServer => "smtp server",
            ConfigOption::SmtpUser => "smtp user",
            ConfigOption::SmtpPort => "smtp port",
            ConfigOption::SmtpEncryption => "smtp encryption",
        }
    }
}

/// The `ListSeries` command, which takes no argument.
pub struct ListSeries {}

/// Builds a `ListSeries` command.
pub struct ListSeriesBuilder {}

impl ListSeries {
    fn new() -> (r: Self) {
        ListSeries {}
    }

    pub fn builder() -> (r: CommandBuilder)
        ensures
            r is ListSeries,
    {
        CommandBuilder::ListSeries(ListSeriesBuilder::new())
    }
}

impl ListSeriesBuilder {
    fn new() -> (r: Self) {
        Self {}
    }

    pub fn name(&self) -> (r: &'static str)
        ensures
            r@ == LIST_SERIES@,
    {
        LIST_SERIES
    }

    pub fn build(&self) -> (r: Result<Command, CommandBuilderError>)
        ensures
            r matches Ok(c) && c is ListSeries,
    {
        Ok(Command::ListSeries(ListSeries::new()))
    }
}

/// The `DeleteRepo` command, which takes no argument.
pub struct DeleteRepo {}

/// Builds a `DeleteRepo` command.
pub struct DeleteRepoBuilder {}

impl DeleteRepo {
    fn new() -> (r: Self) {
        DeleteRepo {}
    }

    pub fn builder() -> (r: CommandBuilder)
        ensures
            r is DeleteRepo,
    {
        CommandBuilder::DeleteRepo(DeleteRepoBuilder::new())
    }
}

impl DeleteRepoBuilder {
    fn new() -> (r: Self) {
        Self {}
    }

    pub fn name(&self) -> (r: &'static str)
        ensures
            r@ == DELETE_REPO@,
    {
        DELETE_REPO
    }

    pub fn build(&self) -> (r: Result<Command, CommandBuilderError>)
        ensures
            r matches Ok(c) && c is DeleteRepo,
    {
        Ok(Command::DeleteRepo(DeleteRepo::new()))
    }
}

/// The `ListRepos` command, which takes no argument.
pub struct ListRepos {}

/// Builds a `ListRepos` command.
pub struct ListReposBuilder {}

impl ListRepos {
    fn new() -> (r: Self) {
        ListRepos {}
    }

    pub fn builder() -> (r: CommandBuilder)
        ensures
            r is ListRepos,
    {
        CommandBuilder::ListRepos(ListReposBuilder::new())
    }
}

impl ListReposBuilder {
    fn new() -> (r: Self) {
        Self {}
    }

    pub fn name(&self) -> (r: &'static str)
        ensures
            r@ == LIST_REPOS@,
    {
        LIST_REPOS
    }

    pub fn build(&self) -> (r: Result<Command, CommandBuilderError>)
        ensures
            r matches Ok(c) && c is ListRepos,
    {
        Ok(Command::ListRepos(ListRepos::new()))
    }
}

/// The `CleanTmp` command, which takes no argument.
pub struct CleanTmp {}

/// Builds a `CleanTmp` command.
pub struct CleanTmpBuilder {}

impl CleanTmp {
    fn new() -> (r: Self) {
        CleanTmp {}
    }

    pub fn builder() -> (r: CommandBuilder)
        ensures
            r is CleanTmp,
    {
        CommandBuilder::CleanTmp(CleanTmpBuilder::new())
    }
}

impl CleanTmpBuilder {
    fn new() -> (r: Self) {
        Self {}
    }

    pub fn name(&self) -> (r: &'static str)
        ensures
            r@ == ADD_REVISION@,
    {
        ADD_REVISION
    }

    pub fn build(&self) -> (r: Result<Command, CommandBuilderError>)
        ensures
            r matches Ok(c) && c is CleanTmp,
    {
        Ok(Command::CleanTmp(CleanTmp::new()))
    }
}

/// The `EditCVSkel` command, which takes no argument.
pub struct EditCVSkel {}

/// Builds a `EditCVSkel` command.
pub struct EditCVSkelBuilder {}

impl EditCVSkel {
    fn new() -> (r: Self) {
        EditCVSkel {}
    }

    pub fn builder() -> (r: CommandBuilder)
        ensures
            r is EditCVSkel,
    {
        CommandBuilder::EditCVSkel(EditCVSkelBuilder::new())
    }
}

impl EditCVSkelBuilder {
    fn new() -> (r: Self) {
        Self {}
    }

    pub fn name(&self) -> (r: &'static str)
        ensures
            r@ == EDIT_CV_SKEL@,
    {
        EDIT_CV_SKEL
    }

    pub fn build(&self) -> (r: Result<Command, CommandBuilderError>)
        ensures
            r matches Ok(c) && c is EditCVSkel,
    {
        Ok(Command::EditCVSkel(EditCVSkel::new()))
    }
}

/// The `RegisterRepo` command.
pub struct RegisterRepo {
    name: String,
}

/// The arguments of a `RegisterRepo` command, as values.
pub struct RegisterRepoModel {
    pub name: Seq<char>,
}

impl View for RegisterRepo {
    type V = RegisterRepoModel;

    closed spec fn view(&self) -> RegisterRepoModel {
        RegisterRepoModel { name: self.name@ }
    }
}

/// Builds a `RegisterRepo` command from its values, in order.
pub struct RegisterRepoBuilder {
    name: Option<String>,
}

/// The values collected so far, as values.
pub struct RegisterRepoBuilderModel {
    pub name: Option<Seq<char>>,
}

impl View for RegisterRepoBuilder {
    type V = RegisterRepoBuilderModel;

    closed spec fn view(&self) -> RegisterRepoBuilderModel {
        RegisterRepoBuilderModel { name: opt_seq(self.name) }
    }
}

impl RegisterRepo {
    fn new(name: &str) -> (r: Self)
        ensures
            r@ == (RegisterRepoModel { name: name@ }),
    {
        RegisterRepo { name: name.to_owned() }
    }

    pub fn builder() -> (r: CommandBuilder)
        ensures
            r matches CommandBuilder::RegisterRepo(b) && b@ == (RegisterRepoBuilderModel { name: None }),
    {
        CommandBuilder::RegisterRepo(RegisterRepoBuilder::new())
    }
}

impl RegisterRepoBuilder {
    fn new() -> (r: Self)
        ensures
            r@ == (RegisterRepoBuilderModel { name: None }),
    {
        Self { name: None }
    }

    /// Takes the next value: it fills the first argument not yet given.
    pub fn add_value(&mut self, value: &str) -> (r: Result<(), CommandBuilderError>)
        ensures
            old(self)@.name is None ==> r is Ok && final(self)@ == (RegisterRepoBuilderModel { name: Some(value@), ..old(self)@ }),
            old(self)@.name is Some ==> (r matches Err(e) && e.spec_code() == CommandBuilderErrorCode::UnexpectedValue && e.spec_message() == value@) && final(self)@ == old(self)@,
    {
        if self.name.is_none() {
            self.name = Some(value.to_owned());
            return Ok(());
        }
        Err(CommandBuilderError::unexpected_value(value))
    }

    pub fn name(&self) -> (r: &'static str)
        ensures
            r@ == REGISTER_REPO@,
    {
        REGISTER_REPO
    }

    /// The command, once every argument is given.
    pub fn build(&self) -> (r: Result<Command, CommandBuilderError>)
        ensures
            r is Ok <==> self@.name is Some,
            r matches Ok(c) ==> (c matches Command::RegisterRepo(x) && Some(x@.name) == self@.name),
            r matches Err(e) ==> e.spec_code() == CommandBuilderErrorCode::MissingValue,
    {
        match &self.name {
            Some(name) => Ok(Command::RegisterRepo(RegisterRepo::new(name.as_str()))),
            None => Err(CommandBuilderError::missing("Missing repo name")),
        }
    }
}

/// The `CreateSeries` command.
pub struct CreateSeries {
    name: String,
    title: String,
}

/// The arguments of a `CreateSeries` command, as values.
pub struct CreateSeriesModel {
    pub name: Seq<char>,
    pub title: Seq<char>,
}

impl View for CreateSeries {
    type V = CreateSeriesModel;

    closed spec fn view(&self) -> CreateSeriesModel {
        CreateSeriesModel { name: self.name@, title: self.title@ }
    }
}

/// Builds a `CreateSeries` command from its values, in order.
pub struct CreateSeriesBuilder {
    name: Option<String>,
    title: Option<String>,
}

/// The values collected so far, as values.
pub struct CreateSeriesBuilderModel {
    pub name: Option<Seq<char>>,
    pub title: Option<Seq<char>>,
}

impl View for CreateSeriesBuilder {
    type V = CreateSeriesBuilderModel;

    closed spec fn view(&self) -> CreateSeriesBuilderModel {
        CreateSeriesBuilderModel { name: opt_seq(self.name), title: opt_seq(self.title) }
    }
}

impl CreateSeries {
    fn new(name: &str, title: &str) -> (r: Self)
        ensures
            r@ == (CreateSeriesModel { name: name@, title: title@ }),
    {
        CreateSeries { name: name.to_owned(), title: title.to_owned() }
    }

    pub fn builder() -> (r: CommandBuilder)
        ensures
            r matches CommandBuilder::CreateSeries(b) && b@ == (CreateSeriesBuilderModel { name: None, title: None }),
    {
        CommandBuilder::CreateSeries(CreateSeriesBuilder::new())
    }
}

impl CreateSeriesBuilder {
    fn new() -> (r: Self)
        ensures
            r@ == (CreateSeriesBuilderModel { name: None, title: None }),
    {
        Self { name: None, title: None }
    }

    /// Takes the next value: it fills the first argument not yet given.
    pub fn add_value(&mut self, value: &str) -> (r: Result<(), CommandBuilderError>)
        ensures
            old(self)@.name is None ==> r is Ok && final(self)@ == (CreateSeriesBuilderModel { name: Some(value@), ..old(self)@ }),
            old(self)@.name is Some && old(self)@.title is None ==> r is Ok && final(self)@ == (CreateSeriesBuilderModel { title: Some(value@), ..old(self)@ }),
            old(self)@.name is Some && old(self)@.title is Some ==> (r matches Err(e) && e.spec_code() == CommandBuilderErrorCode::UnexpectedValue && e.spec_message() == value@) && final(self)@ == old(self)@,
    {
        if self.name.is_none() {
            self.name = Some(value.to_owned());
            return Ok(());
        }
        if self.title.is_none() {
            self.title = Some(value.to_owned());
            return Ok(());
        }
        Err(CommandBuilderError::unexpected_value(value))
    }

    pub fn name(&self) -> (r: &'static str)
        ensures
            r@ == CREATE_SERIES@,
    {
        CREATE_SERIES
    }

    /// The command, once every argument is given.
    pub fn build(&self) -> (r: Result<Command, CommandBuilderError>)
        ensures
            r is Ok <==> self@.name is Some && self@.title is Some,
            r matches Ok(c) ==> (c matches Command::CreateSeries(x) && Some(x@.name) == self@.name && Some(x@.title) == self@.title),
            r matches Err(e) ==> e.spec_code() == CommandBuilderErrorCode::MissingValue,
    {
        match (&self.name, &self.title) {
            (Some(name), Some(title)) => Ok(Command::CreateSeries(CreateSeries::new(name.as_str(), title.as_str()))),
            _ => Err(CommandBuilderError::missing("Missing arguments")),
        }
    }
}

/// The `DeleteSeries` command.
pub struct DeleteSeries {
    name: String,
}

/// The arguments of a `DeleteSeries` command, as values.
pub struct DeleteSeriesModel {
    pub name: Seq<char>,
}

impl View for DeleteSeries {
    type V = DeleteSeriesModel;

    closed spec fn view(&self) -> DeleteSeriesModel {
        DeleteSeriesModel { name: self.name@ }
    }
}

/// Builds a `DeleteSeries` command from its values, in order.
pub struct DeleteSeriesBuilder {
    name: Option<String>,
}

/// The values collected so far, as values.
pub struct DeleteSeriesBuilderModel {
    pub name: Option<Seq<char>>,
}

impl View for DeleteSeriesBuilder {
    type V = DeleteSeriesBuilderModel;

    closed spec fn view(&self) -> DeleteSeriesBuilderModel {
        DeleteSeriesBuilderModel { name: opt_seq(self.name) }
    }
}

impl DeleteSeries {
    fn new(name: &str) -> (r: Self)
        ensures
            r@ == (DeleteSeriesModel { name: name@ }),
    {
        DeleteSeries { name: name.to_owned() }
    }

    pub fn builder() -> (r: CommandBuilder)
        ensures
            r matches CommandBuilder::DeleteSeries(b) && b@ == (DeleteSeriesBuilderModel { name: None }),
    {
        CommandBuilder::DeleteSeries(DeleteSeriesBuilder::new())
    }
}

impl DeleteSeriesBuilder {
    fn new() -> (r: Self)
        ensures
            r@ == (DeleteSeriesBuilderModel { name: None }),
    {
        Self { name: None }
    }

    /// Takes the next value: it fills the first argument not yet given.
    pub fn add_value(&mut self, value: &str) -> (r: Result<(), CommandBuilderError>)
        ensures
            old(self)@.name is None ==> r is Ok && final(self)@ == (DeleteSeriesBuilderModel { name: Some(value@), ..old(self)@ }),
            old(self)@.name is Some ==> (r matches Err(e) && e.spec_code() == CommandBuilderErrorCode::UnexpectedValue && e.spec_message() == value@) && final(self)@ == old(self)@,
    {
        if self.name.is_none() {
            self.name = Some(value.to_owned());
            return Ok(());
        }
        Err(CommandBuilderError::unexpected_value(value))
    }

    pub fn name(&self) -> (r: &'static str)
        ensures
            r@ == DELETE_SERIES@,
    {
        DELETE_SERIES
    }

    /// The command, once every argument is given.
    pub fn build(&self) -> (r: Result<Command, CommandBuilderError>)
        ensures
            r is Ok <==> self@.name is Some,
            r matches Ok(c) ==> (c matches Command::DeleteSeries(x) && Some(x@.name) == self@.name),
            r matches Err(e) ==> e.spec_code() == CommandBuilderErrorCode::MissingValue,
    {
        match &self.name {
            Some(name) => Ok(Command::DeleteSeries(DeleteSeries::new(name.as_str()))),
            None => Err(CommandBuilderError::missing("Missing series name")),
        }
    }
}

/// The `AddRevision` command.
pub struct AddRevision {
    series_name: String,
}

/// The arguments of a `AddRevision` command, as values.
pub struct AddRevisionModel {
    pub series_name: Seq<char>,
}

impl View for AddRevision {
    type V = AddRevisionModel;

    closed spec fn view(&self) -> AddRevisionModel {
        AddRevisionModel { series_name: self.series_name@ }
    }
}

/// Builds a `AddRevision` command from its values, in order.
pub struct AddRevisionBuilder {
    series_name: Option<String>,
}

/// The values collected so far, as values.
pub struct AddRevisionBuilderModel {
    pub series_name: Option<Seq<char>>,
}

impl View for AddRevisionBuilder {
    type V = AddRevisionBuilderModel;

    closed spec fn view(&self) -> AddRevisionBuilderModel {
        AddRevisionBuilderModel { series_name: opt_seq(self.series_name) }
    }
}

impl AddRevision {
    fn new(series_name: &str) -> (r: Self)
        ensures
            r@ == (AddRevisionModel { series_name: series_name@ }),
    {
        AddRevision { series_name: series_name.to_owned() }
    }

    pub fn builder() -> (r: CommandBuilder)
        ensures
            r matches CommandBuilder::AddRevision(b) && b@ == (AddRevisionBuilderModel { series_name: None }),
    {
        CommandBuilder::AddRevision(AddRevisionBuilder::new())
    }
}

impl AddRevisionBuilder {
    fn new() -> (r: Self)
        ensures
            r@ == (AddRevisionBuilderModel { series_name: None }),
    {
        Self { series_name: None }
    }

    /// Takes the next value: it fills the first argument not yet given.
    pub fn add_value(&mut self, value: &str) -> (r: Result<(), CommandBuilderError>)
        ensures
            old(self)@.series_name is None ==> r is Ok && final(self)@ == (AddRevisionBuilderModel { series_name: Some(value@), ..old(self)@ }),
            old(self)@.series_name is Some ==> (r matches Err(e) && e.spec_code() == CommandBuilderErrorCode::UnexpectedValue && e.spec_message() == value@) && final(self)@ == old(self)@,
    {
        if self.series_name.is_none() {
            self.series_name = Some(value.to_owned());
            return Ok(());
        }
        Err(CommandBuilderError::unexpected_value(value))
    }

    pub fn name(&self) -> (r: &'static str)
        ensures
            r@ == ADD_REVISION@,
    {
        ADD_REVISION
    }

    /// The command, once every argument is given.
    pub fn build(&self) -> (r: Result<Command, CommandBuilderError>)
        ensures
            r is Ok <==> self@.series_name is Some,
            r matches Ok(c) ==> (c matches Command::AddRevision(x) && Some(x@.series_name) == self@.series_name),
            r matches Err(e) ==> e.spec_code() == CommandBuilderErrorCode::MissingValue,
    {
        match &self.series_name {
            Some(series_name) => Ok(Command::AddRevision(AddRevision::new(series_name.as_str()))),
            None => Err(CommandBuilderError::missing("Missing series name")),
        }
    }
}

/// The `DeleteRevision` command.
pub struct DeleteRevision {
    series_name: String,
    revision: usize,
}

/// The arguments of a `DeleteRevision` command, as values.
pub struct DeleteRevisionModel {
    pub series_name: Seq<char>,
    pub revision: usize,
}

impl View for DeleteRevision {
    type V = DeleteRevisionModel;

    closed spec fn view(&self) -> DeleteRevisionModel {
        DeleteRevisionModel { series_name: self.series_name@, revision: self.revision }
    }
}

/// Builds a `DeleteRevision` command from its values, in order.
pub struct DeleteRevisionBuilder {
    series_name: Option<String>,
    revision: Option<usize>,
}

/// The values collected so far, as values.
pub struct DeleteRevisionBuilderModel {
    pub series_name: Option<Seq<char>>,
    pub revision: Option<usize>,
}

impl View for DeleteRevisionBuilder {
    type V = DeleteRevisionBuilderModel;

    closed spec fn view(&self) -> DeleteRevisionBuilderModel {
        DeleteRevisionBuilderModel { series_name: opt_seq(self.series_name), revision: self.revision }
    }
}

impl DeleteRevision {
    fn new(series_name: &str, revision: usize) -> (r: Self)
        ensures
            r@ == (DeleteRevisionModel { series_name: series_name@, revision: revision }),
    {
        DeleteRevision { series_name: series_name.to_owned(), revision: revision }
    }

    pub fn builder() -> (r: CommandBuilder)
        ensures
            r matches CommandBuilder::DeleteRevision(b) && b@ == (DeleteRevisionBuilderModel { series_name: None, revision: None }),
    {
        CommandBuilder::DeleteRevision(DeleteRevisionBuilder::new())
    }
}

impl DeleteRevisionBuilder {
    fn new() -> (r: Self)
        ensures
            r@ == (DeleteRevisionBuilderModel { series_name: None, revision: None }),
    {
        Self { series_name: None, revision: None }
    }

    /// Takes the next value: it fills the first argument not yet given.
    pub fn add_value(&mut self, value: &str) -> (r: Result<(), CommandBuilderError>)
        ensures
            old(self)@.series_name is None ==> r is Ok && final(self)@ == (DeleteRevisionBuilderModel { series_name: Some(value@), ..old(self)@ }),
            old(self)@.series_name is Some && old(self)@.revision is None && parsed_usize(value@) is Some ==> r is Ok && final(self)@ == (DeleteRevisionBuilderModel { revision: parsed_usize(value@), ..old(self)@ }),
            old(self)@.series_name is Some && old(self)@.revision is None && parsed_usize(value@) is None ==> (r matches Err(e) && e.spec_code() == CommandBuilderErrorCode::UnexpectedValue) && final(self)@ == old(self)@,
            old(self)@.series_name is Some && old(self)@.revision is Some ==> (r matches Err(e) && e.spec_code() == CommandBuilderErrorCode::UnexpectedValue && e.spec_message() == value@) && final(self)@ == old(self)@,
    {
        if self.series_name.is_none() {
            self.series_name = Some(value.to_owned());
            return Ok(());
        }
        if self.revision.is_none() {
            if let Some(parsed) = parse_usize(value) {
                self.revision = Some(parsed);
                return Ok(());
            }
            return Err(CommandBuilderError::unexpected_value(value));
        }
        Err(CommandBuilderError::unexpected_value(value))
    }

    pub fn name(&self) -> (r: &'static str)
        ensures
            r@ == DELETE_REVISION@,
    {
        DELETE_REVISION
    }

    /// The command, once every argument is given.
    pub fn build(&self) -> (r: Result<Command, CommandBuilderError>)
        ensures
            r is Ok <==> self@.series_name is Some && self@.revision is Some,
            r matches Ok(c) ==> (c matches Command::DeleteRevision(x) && Some(x@.series_name) == self@.series_name && Some(x@.revision) == self@.revision),
            r matches Err(e) ==> e.spec_code() == CommandBuilderErrorCode::MissingValue,
    {
        match (&self.series_name, self.revision) {
            (Some(series_name), Some(revision)) => Ok(Command::DeleteRevision(DeleteRevision::new(series_name.as_str(), revision))),
            _ => Err(CommandBuilderError::missing("Missing arguments")),
        }
    }
}

/// The `EditRevision` command.
pub struct EditRevision {
    series_name: String,
    revision: usize,
}

/// The arguments of a `EditRevision` command, as values.
pub struct EditRevisionModel {
    pub series_name: Seq<char>,
    pub revision: usize,
}

impl View for EditRevision {
    type V = EditRevisionModel;

    closed spec fn view(&self) -> EditRevisionModel {
        EditRevisionModel { series_name: self.series_name@, revision: self.revision }
    }
}

/// Builds a `EditRevision` command from its values, in order.
pub struct EditRevisionBuilder {
    series_name: Option<String>,
    revision: Option<usize>,
}

/// The values collected so far, as values.
pub struct EditRevisionBuilderModel {
    pub series_name: Option<Seq<char>>,
    pub revision: Option<usize>,
}

impl View for EditRevisionBuilder {
    type V = EditRevisionBuilderModel;

    closed spec fn view(&self) -> EditRevisionBuilderModel {
        EditRevisionBuilderModel { series_name: opt_seq(self.series_name), revision: self.revision }
    }
}

impl EditRevision {
    fn new(series_name: &str, revision: usize) -> (r: Self)
        ensures
            r@ == (EditRevisionModel { series_name: series_name@, revision: revision }),
    {
        EditRevision { series_name: series_name.to_owned(), revision: revision }
    }

    pub fn builder() -> (r: CommandBuilder)
        ensures
            r matches CommandBuilder::EditRevision(b) && b@ == (EditRevisionBuilderModel { series_name: None, revision: None }),
    {
        CommandBuilder::EditRevision(EditRevisionBuilder::new())
    }
}

impl EditRevisionBuilder {
    fn new() -> (r: Self)
        ensures
            r@ == (EditRevisionBuilderModel { series_name: None, revision: None }),
    {
        Self { series_name: None, revision: None }
    }

    /// Takes the next value: it fills the first argument not yet given.
    pub fn add_value(&mut self, value: &str) -> (r: Result<(), CommandBuilderError>)
        ensures
            old(self)@.series_name is None ==> r is Ok && final(self)@ == (EditRevisionBuilderModel { series_name: Some(value@), ..old(self)@ }),
            old(self)@.series_name is Some && old(self)@.revision is None && parsed_usize(value@) is Some ==> r is Ok && final(self)@ == (EditRevisionBuilderModel { revision: parsed_usize(value@), ..old(self)@ }),
            old(self)@.series_name is Some && old(self)@.revision is None && parsed_usize(value@) is None ==> (r matches Err(e) && e.spec_code() == CommandBuilderErrorCode::UnexpectedValue) && final(self)@ == old(self)@,
            old(self)@.series_name is Some && old(self)@.revision is Some ==> (r matches Err(e) && e.spec_code() == CommandBuilderErrorCode::UnexpectedValue && e.spec_message() == value@) && final(self)@ == old(self)@,
    {
        if self.series_name.is_none() {
            self.series_name = Some(value.to_owned());
            return Ok(());
        }
        if self.revision.is_none() {
            if let Some(parsed) = parse_usize(value) {
                self.revision = Some(parsed);
                return Ok(());
            }
            return Err(CommandBuilderError::unexpected_value(value));
        }
        Err(CommandBuilderError::unexpected_value(value))
    }

    pub fn name(&self) -> (r: &'static str)
        ensures
            r@ == EDIT_REVISION@,
    {
        EDIT_REVISION
    }

    /// The command, once every argument is given.
    pub fn build(&self) -> (r: Result<Command, CommandBuilderError>)
        ensures
            r is Ok <==> self@.series_name is Some && self@.revision is Some,
            r matches Ok(c) ==> (c matches Command::EditRevision(x) && Some(x@.series_name) == self@.series_name && Some(x@.revision) == self@.revision),
            r matches Err(e) ==> e.spec_code() == CommandBuilderErrorCode::MissingValue,
    {
        match (&self.series_name, self.revision) {
            (Some(series_name), Some(revision)) => Ok(Command::EditRevision(EditRevision::new(series_name.as_str(), revision))),
            _ => Err(CommandBuilderError::missing("Missing arguments")),
        }
    }
}

/// The `AddMailingList` command.
pub struct AddMailingList {
    name: String,
    email: String,
}

/// The arguments of a `AddMailingList` command, as values.
pub struct AddMailingListModel {
    pub name: Seq<char>,
    pub email: Seq<char>,
}

impl View for AddMailingList {
    type V = AddMailingListModel;

    closed spec fn view(&self) -> AddMailingListModel {
        AddMailingListModel { name: self.name@, email: self.email@ }
    }
}

/// Builds a `AddMailingList` command from its values, in order.
pub struct AddMailingListBuilder {
    name: Option<String>,
    email: Option<String>,
}

/// The values collected so far, as values.
pub struct AddMailingListBuilderModel {
    pub name: Option<Seq<char>>,
    pub email: Option<Seq<char>>,
}

impl View for AddMailingListBuilder {
    type V = AddMailingListBuilderModel;

    closed spec fn view(&self) -> AddMailingListBuilderModel {
        AddMailingListBuilderModel { name: opt_seq(self.name), email: opt_seq(self.email) }
    }
}

impl AddMailingList {
    fn new(name: &str, email: &str) -> (r: Self)
        ensures
            r@ == (AddMailingListModel { name: name@, email: email@ }),
    {
        AddMailingList { name: name.to_owned(), email: email.to_owned() }
    }

    pub fn builder() -> (r: CommandBuilder)
        ensures
            r matches CommandBuilder::AddMailingList(b) && b@ == (AddMailingListBuilderModel { name: None, email: None }),
    {
        CommandBuilder::AddMailingList(AddMailingListBuilder::new())
    }
}

impl AddMailingListBuilder {
    fn new() -> (r: Self)
        ensures
            r@ == (AddMailingListBuilderModel { name: None, email: None }),
    {
        Self { name: None, email: None }
    }

    /// Takes the next value: it fills the first argument not yet given.
    pub fn add_value(&mut self, value: &str) -> (r: Result<(), CommandBuilderError>)
        ensures
            old(self)@.name is None ==> r is Ok && final(self)@ == (AddMailingListBuilderModel { name: Some(value@), ..old(self)@ }),
            old(self)@.name is Some && old(self)@.email is None ==> r is Ok && final(self)@ == (AddMailingListBuilderModel { email: Some(value@), ..old(self)@ }),
            old(self)@.name is Some && old(self)@.email is Some ==> (r matches Err(e) && e.spec_code() == CommandBuilderErrorCode::UnexpectedValue && e.spec_message() == value@) && final(self)@ == old(self)@,
    {
        if self.name.is_none() {
            self.name = Some(value.to_owned());
            return Ok(());
        }
        if self.email.is_none() {
            self.email = Some(value.to_owned());
            return Ok(());
        }
        Err(CommandBuilderError::unexpected_value(value))
    }

    pub fn name(&self) -> (r: &'static str)
        ensures
            r@ == ADD_LIST@,
    {
        ADD_LIST
    }

    /// The command, once every argument is given.
    pub fn build(&self) -> (r: Result<Command, CommandBuilderError>)
        ensures
            r is Ok <==> self@.name is Some && self@.email is Some,
            r matches Ok(c) ==> (c matches Command::AddMailingList(x) && Some(x@.name) == self@.name && Some(x@.email) == self@.email),
            r matches Err(e) ==> e.spec_code() == CommandBuilderErrorCode::MissingValue,
    {
        match (&self.name, &self.email) {
            (Some(name), Some(email)) => Ok(Command::AddMailingList(AddMailingList::new(name.as_str(), email.as_str()))),
            _ => Err(CommandBuilderError::missing("Missing arguments")),
        }
    }
}

/// The `DeleteMailingList` command.
pub struct DeleteMailingList {
    name: String,
}

/// The arguments of a `DeleteMailingList` command, as values.
pub struct DeleteMailingListModel {
    pub name: Seq<char>,
}

impl View for DeleteMailingList {
    type V = DeleteMailingListModel;

    closed spec fn view(&self) -> DeleteMailingListModel {
        DeleteMailingListModel { name: self.name@ }
    }
}

/// Builds a `DeleteMailingList` command from its values, in order.
pub struct DeleteMailingListBuilder {
    name: Option<String>,
}

/// The values collected so far, as values.
pub struct DeleteMailingListBuilderModel {
    pub name: Option<Seq<char>>,
}

impl View for DeleteMailingListBuilder {
    type V = DeleteMailingListBuilderModel;

    closed spec fn view(&self) -> DeleteMailingListBuilderModel {
        DeleteMailingListBuilderModel { name: opt_seq(self.name) }
    }
}

impl DeleteMailingList {
    fn new(name: &str) -> (r: Self)
        ensures
            r@ == (DeleteMailingListModel { name: name@ }),
    {
        DeleteMailingList { name: name.to_owned() }
    }

    pub fn builder() -> (r: CommandBuilder)
        ensures
            r matches CommandBuilder::DeleteMailingList(b) && b@ == (DeleteMailingListBuilderModel { name: None }),
    {
        CommandBuilder::DeleteMailingList(DeleteMailingListBuilder::new())
    }
}

impl DeleteMailingListBuilder {
    fn new() -> (r: Self)
        ensures
            r@ == (DeleteMailingListBuilderModel { name: None }),
    {
        Self { name: None }
    }

    /// Takes the next value: it fills the first argument not yet given.
    pub fn add_value(&mut self, value: &str) -> (r: Result<(), CommandBuilderError>)
        ensures
            old(self)@.name is None ==> r is Ok && final(self)@ == (DeleteMailingListBuilderModel { name: Some(value@), ..old(self)@ }),
            old(self)@.name is Some ==> (r matches Err(e) && e.spec_code() == CommandBuilderErrorCode::UnexpectedValue && e.spec_message() == value@) && final(self)@ == old(self)@,
    {
        if self.name.is_none() {
            self.name = Some(value.to_owned());
            return Ok(());
        }
        Err(CommandBuilderError::unexpected_value(value))
    }

    pub fn name(&self) -> (r: &'static str)
        ensures
            r@ == DELETE_LIST@,
    {
        DELETE_LIST
    }

    /// The command, once every argument is given.
    pub fn build(&self) -> (r: Result<Command, CommandBuilderError>)
        ensures
            r is Ok <==> self@.name is Some,
            r matches Ok(c) ==> (c matches Command::DeleteMailingList(x) && Some(x@.name) == self@.name),
            r matches Err(e) ==> e.spec_code() == CommandBuilderErrorCode::MissingValue,
    {
        match &self.name {
            Some(name) => Ok(Command::DeleteMailingList(DeleteMailingList::new(name.as_str()))),
            None => Err(CommandBuilderError::missing("Missing list name")),
        }
    }
}

/// The `EditSeries` command: a field of a series to edit.
pub struct EditSeries {
    target: EditSeriesTarget,
    series_name: String,
}

impl EditSeries {
    pub closed spec fn spec_target(&self) -> EditSeriesTarget {
        self.target
    }

    pub closed spec fn spec_series_name(&self) -> Seq<char> {
        self.series_name@
    }

    fn new(target: EditSeriesTarget, series_name: &str) -> (r: Self)
        ensures
            r.spec_target() == target,
            r.spec_series_name() == series_name@,
    {
        EditSeries { target, series_name: series_name.to_owned() }
    }

    pub fn target(&self) -> (r: EditSeriesTarget)
        ensures
            r == self.spec_target(),
    {
        self.target
    }

    pub fn series_name(&self) -> (r: &str)
        ensures
            r@ == self.spec_series_name(),
    {
        self.series_name.as_str()
    }

    pub fn builder() -> (r: CommandBuilder)
        ensures
            r matches CommandBuilder::EditSeries(b) && b@ == (None::<EditSeriesTarget>, None::<Seq<char>>),
    {
        CommandBuilder::EditSeries(EditSeriesBuilder::new())
    }
}

/// Builds an `EditSeries` command: the target, then the series.
pub struct EditSeriesBuilder {
    target: Option<EditSeriesTarget>,
    series_name: Option<String>,
}

impl View for EditSeriesBuilder {
    type V = (Option<EditSeriesTarget>, Option<Seq<char>>);

    closed spec fn view(&self) -> (Option<EditSeriesTarget>, Option<Seq<char>>) {
        (self.target, opt_seq(self.series_name))
    }
}

impl EditSeriesBuilder {
    fn new() -> (r: Self)
        ensures
            r@ == (None::<EditSeriesTarget>, None::<Seq<char>>),
    {
        Self { target: None, series_name: None }
    }

    /// Takes the target's word first, then the series' name.
    pub fn add_value(&mut self, value: &str) -> (r: Result<(), CommandBuilderError>)
        ensures
            old(self)@.0 is None ==> match EditSeriesTarget::spec_from(value@) {
                Some(t) => r is Ok && final(self)@ == (Some(t), old(self)@.1),
                None => (r matches Err(e) && e.spec_code() == CommandBuilderErrorCode::UnexpectedValue)
                    && final(self)@ == old(self)@,
            },
            old(self)@.0 is Some && old(self)@.1 is None ==> r is Ok && final(self)@ == (old(self)@.0, Some(value@)),
            old(self)@.0 is Some && old(self)@.1 is Some ==> (r matches Err(e)
                && e.spec_code() == CommandBuilderErrorCode::UnexpectedValue) && final(self)@ == old(self)@,
    {
        if self.target.is_none() {
            if let Some(target) = EditSeriesTarget::try_from_str(value) {
                self.target = Some(target);
                return Ok(());
            }
            return Err(CommandBuilderError::unexpected_value(value));
        }
        if self.series_name.is_none() {
            self.series_name = Some(value.to_owned());
            return Ok(());
        }
        Err(CommandBuilderError::unexpected_value(value))
    }

    pub fn name(&self) -> (r: &'static str)
        ensures
            r@ == EDIT_SERIES@,
    {
        EDIT_SERIES
    }

    pub fn build(&self) -> (r: Result<Command, CommandBuilderError>)
        ensures
            r is Ok <==> self@.0 is Some && self@.1 is Some,
            r matches Ok(c) ==> (c matches Command::EditSeries(x) && Some(x.spec_target()) == self@.0
                && Some(x.spec_series_name()) == self@.1),
            r matches Err(e) ==> e.spec_code() == CommandBuilderErrorCode::MissingValue,
    {
        match (self.target, &self.series_name) {
            (Some(target), Some(series_name)) => Ok(Command::EditSeries(EditSeries::new(target, series_name.as_str()))),
            _ => Err(CommandBuilderError::missing("Missing arguments")),
        }
    }
}

impl EditSeriesTarget {
    /// The target a word names.
    pub open spec fn spec_from(value: Seq<char>) -> Option<EditSeriesTarget> {
        if value == "name"@ {
            Some(EditSeriesTarget::Name)
        } else if value == "title"@ {
            Some(EditSeriesTarget::Title)
        } else if value == "cv"@ {
            Some(EditSeriesTarget::Cv)
        } else if value == "short"@ {
            Some(EditSeriesTarget::ShortName)
        } else if value == "cc"@ {
            Some(EditSeriesTarget::Cc)
        } else {
            None
        }
    }
}

impl ConfigOption {
    /// The setting a word names.
    pub open spec fn spec_from(value: Seq<char>) -> Option<ConfigOption> {
        if value == "editor"@ {
            Some(ConfigOption::Editor)
        } else if value == "sendcmd"@ {
            Some(ConfigOption::SendCommand)
        } else if value == "from"@ {
            Some(ConfigOption::FromEmail)
        } else if value == "smtpserver"@ {
            Some(ConfigOption::SmtpServer)
        } else if value == "smtpuser"@ {
            Some(ConfigOption::SmtpUser)
        } else if value == "smtpport"@ {
            Some(ConfigOption::SmtpPort)
        } else if value == "smtpenc"@ {
            Some(ConfigOption::SmtpEncryption)
        } else {
            None
        }
    }
}

/// Flag of `config` that unsets the setting.
pub const DEL_FLAG: &'static str = "d";

/// The `Configure` command: set a setting to a value, or unset it.
pub struct Configure {
    option: ConfigOption,
    value: Option<String>,
}

impl Configure {
    pub closed spec fn spec_option(&self) -> ConfigOption {
        self.option
    }

    pub closed spec fn spec_value(&self) -> Option<Seq<char>> {
        opt_seq(self.value)
    }

    fn new(option: ConfigOption, value: Option<&str>) -> (r: Self)
        ensures
            r.spec_option() == option,
            r.spec_value() == crate::text::opt_str(value),
    {
        Configure { option, value: crate::text::opt_to_string(value) }
    }

    pub fn builder() -> (r: CommandBuilder)
        ensures
            r matches CommandBuilder::Configure(b) && b@ == (None::<ConfigOption>, None::<Seq<char>>, false),
    {
        CommandBuilder::Configure(ConfigureBuilder::new())
    }
}

/// Builds a `Configure` command: the setting, then a value or the `d` flag.
pub struct ConfigureBuilder {
    option: Option<ConfigOption>,
    value: Option<String>,
    delete: bool,
}

impl View for ConfigureBuilder {
    type V = (Option<ConfigOption>, Option<Seq<char>>, bool);

    closed spec fn view(&self) -> (Option<ConfigOption>, Option<Seq<char>>, bool) {
        (self.option, opt_seq(self.value), self.delete)
    }
}

impl ConfigureBuilder {
    fn new() -> (r: Self)
        ensures
            r@ == (None::<ConfigOption>, None::<Seq<char>>, false),
    {
        Self { option: None, value: None, delete: false }
    }

    /// Takes the setting's word first, then its value.
    pub fn add_value(&mut self, value: &str) -> (r: Result<(), CommandBuilderError>)
        ensures
            old(self)@.0 is None ==> match ConfigOption::spec_from(value@) {
                Some(o) => r is Ok && final(self)@ == (Some(o), old(self)@.1, old(self)@.2),
                None => (r matches Err(e) && e.spec_code() == CommandBuilderErrorCode::UnexpectedValue)
                    && final(self)@ == old(self)@,
            },
            old(self)@.0 is Some && old(self)@.1 is None ==> r is Ok
                && final(self)@ == (old(self)@.0, Some(value@), old(self)@.2),
            old(self)@.0 is Some && old(self)@.1 is Some ==> (r matches Err(e)
                && e.spec_code() == CommandBuilderErrorCode::UnexpectedValue) && final(self)@ == old(self)@,
    {
        if self.option.is_none() {
            if let Some(option) = ConfigOption::try_from_str(value) {
                self.option = Some(option);
                return Ok(());
            }
            return Err(CommandBuilderError::unexpected_value(value));
        }
        if self.value.is_none() {
            self.value = Some(value.to_owned());
            return Ok(());
        }
        Err(CommandBuilderError::unexpected_value(value))
    }

    /// Takes the `d` flag.
    pub fn add_flag(&mut self, flag: &str) -> (r: Result<(), CommandBuilderError>)
        ensures
            flag@ == DEL_FLAG@ ==> r is Ok && final(self)@ == (old(self)@.0, old(self)@.1, true),
            flag@ != DEL_FLAG@ ==> (r matches Err(e) && e.spec_code() == CommandBuilderErrorCode::UnknownFlag)
                && final(self)@ == old(self)@,
    {
        if str_eq(flag, DEL_FLAG) {
            self.delete = true;
            return Ok(());
        }
        Err(CommandBuilderError::unknown_flag(flag))
    }

    /// The `d` flag takes no value; no other flag is known.
    pub fn requires_value(&self, flag: &str) -> (r: Result<bool, CommandBuilderError>)
        ensures
            flag@ == DEL_FLAG@ ==> r == Ok::<bool, CommandBuilderError>(false),
            flag@ != DEL_FLAG@ ==> (r matches Err(e) && e.spec_code() == CommandBuilderErrorCode::UnknownFlag),
    {
        if str_eq(flag, DEL_FLAG) {
            Ok(false)
        } else {
            Err(CommandBuilderError::unknown_flag(flag))
        }
    }

    pub fn name(&self) -> (r: &'static str)
        ensures
            r@ == CONFIGURE@,
    {
        CONFIGURE
    }

    /// A value and the `d` flag exclude each other; one of them is needed.
    pub fn build(&self) -> (r: Result<Command, CommandBuilderError>)
        ensures
            self@.0 is None ==> (r matches Err(e) && e.spec_code() == CommandBuilderErrorCode::MissingValue),
            self@.0 is Some && self@.1 is Some && self@.2 ==> (r matches Err(e)
                && e.spec_code() == CommandBuilderErrorCode::IncompatibleValues),
            self@.0 is Some && self@.1 is None && !self@.2 ==> (r matches Err(e)
                && e.spec_code() == CommandBuilderErrorCode::MissingValue),
            r is Ok <==> self@.0 is Some && (self@.1 is Some != self@.2),
            r matches Ok(c) ==> (c matches Command::Configure(x) && Some(x.spec_option()) == self@.0
                && x.spec_value() == self@.1),
    {
        let Some(option) = self.option else {
            return Err(CommandBuilderError::missing("Missing option"));
        };
        if self.value.is_some() {
            if self.delete {
                return Err(CommandBuilderError::new(
                    CommandBuilderErrorCode::IncompatibleValues,
                    "Cannot provide a value with -d".to_owned(),
                ));
            }
            return Ok(Command::Configure(Configure::new(option, crate::text::opt_as_str(&self.value))));
        }
        if self.delete {
            return Ok(Command::Configure(Configure::new(option, None)));
        }
        Err(CommandBuilderError::missing("Invalid arguments"))
    }
}

/// Flag of `show` that shows everything.
pub const VERBOSE_FLAG: &'static str = "v";

/// The `ShowSeries` command.
pub struct ShowSeries {
    series_name: String,
    verbose: bool,
}

impl ShowSeries {
    pub closed spec fn spec_series_name(&self) -> Seq<char> {
        self.series_name@
    }

    pub closed spec fn spec_verbose(&self) -> bool {
        self.verbose
    }

    fn new(series_name: &str, verbose: bool) -> (r: Self)
        ensures
            r.spec_series_name() == series_name@,
            r.spec_verbose() == verbose,
    {
        ShowSeries { series_name: series_name.to_owned(), verbose }
    }

    pub fn builder() -> (r: CommandBuilder)
        ensures
            r matches CommandBuilder::ShowSeries(b) && b@ == (None::<Seq<char>>, false),
    {
        CommandBuilder::ShowSeries(ShowSeriesBuilder::new())
    }
}

/// Builds a `ShowSeries` command: the series, and the `v` flag.
pub struct ShowSeriesBuilder {
    series_name: Option<String>,
    verbose: bool,
}

impl View for ShowSeriesBuilder {
    type V = (Option<Seq<char>>, bool);

    closed spec fn view(&self) -> (Option<Seq<char>>, bool) {
        (opt_seq(self.series_name), self.verbose)
    }
}

impl ShowSeriesBuilder {
    fn new() -> (r: Self)
        ensures
            r@ == (None::<Seq<char>>, false),
    {
        Self { series_name: None, verbose: false }
    }

    pub fn add_value(&mut self, value: &str) -> (r: Result<(), CommandBuilderError>)
        ensures
            old(self)@.0 is None ==> r is Ok && final(self)@ == (Some(value@), old(self)@.1),
            old(self)@.0 is Some ==> (r matches Err(e) && e.spec_code() == CommandBuilderErrorCode::UnexpectedValue)
                && final(self)@ == old(self)@,
    {
        if self.series_name.is_some() {
            Err(CommandBuilderError::unexpected_value(value))
        } else {
            self.series_name = Some(value.to_owned());
            Ok(())
        }
    }

    pub fn add_flag(&mut self, flag: &str) -> (r: Result<(), CommandBuilderError>)
        ensures
            flag@ == VERBOSE_FLAG@ ==> r is Ok && final(self)@ == (old(self)@.0, true),
            flag@ != VERBOSE_FLAG@ ==> (r matches Err(e) && e.spec_code() == CommandBuilderErrorCode::UnknownFlag)
                && final(self)@ == old(self)@,
    {
        if str_eq(flag, VERBOSE_FLAG) {
            self.verbose = true;
            return Ok(());
        }
        Err(CommandBuilderError::unknown_flag(flag))
    }

    pub fn requires_value(&self, flag: &str) -> (r: Result<bool, CommandBuilderError>)
        ensures
            flag@ == VERBOSE_FLAG@ ==> r == Ok::<bool, CommandBuilderError>(false),
            flag@ != VERBOSE_FLAG@ ==> (r matches Err(e) && e.spec_code() == CommandBuilderErrorCode::UnknownFlag),
    {
        if str_eq(flag, VERBOSE_FLAG) {
            return Ok(false);
        }
        Err(CommandBuilderError::unknown_flag(flag))
    }

    pub fn name(&self) -> (r: &'static str)
        ensures
            r@ == SHOW_SERIES@,
    {
        SHOW_SERIES
    }

    pub fn build(&self) -> (r: Result<Command, CommandBuilderError>)
        ensures
            r is Ok <==> self@.0 is Some,
            r matches Ok(c) ==> (c matches Command::ShowSeries(x) && Some(x.spec_series_name()) == self@.0
                && x.spec_verbose() == self@.1),
            r matches Err(e) ==> e.spec_code() == CommandBuilderErrorCode::MissingValue,
    {
        match &self.series_name {
            Some(series_name) => Ok(Command::ShowSeries(ShowSeries::new(series_name.as_str(), self.verbose))),
            None => Err(CommandBuilderError::missing("Missing series name")),
        }
    }
}

/// Flag of `send` that gives the cc list.
pub const CC_FLAG: &'static str = "c";

/// Flag of `send` that asks for the commit range interactively.
pub const INTERACTIVE_FLAG: &'static str = "i";

/// The `SendSeries` command.
pub struct SendSeries {
    series_name: String,
    first_commit: Option<String>,
    last_commit: Option<String>,
    to_email: String,
    cc: Option<String>,
    interactive: bool,
}

/// The arguments of a `send` command, as values.
pub struct SendModel {
    pub series_name: Option<Seq<char>>,
    pub first_commit: Option<Seq<char>>,
    pub last_commit: Option<Seq<char>>,
    pub to_email: Option<Seq<char>>,
    pub cc: Option<Seq<char>>,
    pub interactive: bool,
}

impl View for SendSeries {
    type V = SendModel;

    closed spec fn view(&self) -> SendModel {
        SendModel {
            series_name: Some(self.series_name@),
            first_commit: opt_seq(self.first_commit),
            last_commit: opt_seq(self.last_commit),
            to_email: Some(self.to_email@),
            cc: opt_seq(self.cc),
            interactive: self.interactive,
        }
    }
}

impl SendSeries {
    pub fn builder() -> (r: CommandBuilder)
        ensures
            r matches CommandBuilder::SendSeries(b) && b@ == (SendModel {
                series_name: None,
                first_commit: None,
                last_commit: None,
                to_email: None,
                cc: None,
                interactive: false,
            }),
    {
        CommandBuilder::SendSeries(SendSeriesBuilder::new())
    }

    pub fn series_name(&self) -> (r: &str)
        ensures
            Some(r@) == self@.series_name,
    {
        self.series_name.as_str()
    }

    pub fn to_email(&self) -> (r: &str)
        ensures
            Some(r@) == self@.to_email,
    {
        self.to_email.as_str()
    }

    pub fn first_commit(&self) -> (r: Option<&str>)
        ensures
            crate::text::opt_str(r) == self@.first_commit,
    {
        crate::text::opt_as_str(&self.first_commit)
    }

    pub fn last_commit(&self) -> (r: Option<&str>)
        ensures
            crate::text::opt_str(r) == self@.last_commit,
    {
        crate::text::opt_as_str(&self.last_commit)
    }

    pub fn cc(&self) -> (r: Option<&str>)
        ensures
            crate::text::opt_str(r) == self@.cc,
    {
        crate::text::opt_as_str(&self.cc)
    }

    pub fn interactive(&self) -> (r: bool)
        ensures
            r == self@.interactive,
    {
        self.interactive
    }
}

/// Builds a `SendSeries` command: the series, the first and last commits
/// unless the range is chosen interactively, then the recipient.
pub struct SendSeriesBuilder {
    series_name: Option<String>,
    first_commit: Option<String>,
    last_commit: Option<String>,
    to_email: Option<String>,
    cc: Option<String>,
    interactive: bool,
}

impl View for SendSeriesBuilder {
    type V = SendModel;

    closed spec fn view(&self) -> SendModel {
        SendModel {
            series_name: opt_seq(self.series_name),
            first_commit: opt_seq(self.first_commit),
            last_commit: opt_seq(self.last_commit),
            to_email: opt_seq(self.to_email),
            cc: opt_seq(self.cc),
            interactive: self.interactive,
        }
    }
}

impl SendSeriesBuilder {
    fn new() -> (r: Self)
        ensures
            r@ == (SendModel {
                series_name: None,
                first_commit: None,
                last_commit: None,
                to_email: None,
                cc: None,
                interactive: false,
            }),
    {
        Self {
            series_name: None,
            first_commit: None,
            last_commit: None,
            to_email: None,
            cc: None,
            interactive: false,
        }
    }

    /// Takes the next value: the series, then (unless interactive) the first
    /// and the last commit, then the recipient.
    pub fn add_value(&mut self, value: &str) -> (r: Result<(), CommandBuilderError>)
        ensures
            old(self)@.series_name is None ==> r is Ok
                && final(self)@ == (SendModel { series_name: Some(value@), ..old(self)@ }),
            old(self)@.series_name is Some && !old(self)@.interactive && old(self)@.first_commit is None
                ==> r is Ok && final(self)@ == (SendModel { first_commit: Some(value@), ..old(self)@ }),
            old(self)@.series_name is Some && !old(self)@.interactive && old(self)@.first_commit is Some
                && old(self)@.last_commit is None ==> r is Ok
                && final(self)@ == (SendModel { last_commit: Some(value@), ..old(self)@ }),
            old(self)@.series_name is Some && (old(self)@.interactive || (old(self)@.first_commit is Some
                && old(self)@.last_commit is Some)) && old(self)@.to_email is None ==> r is Ok
                && final(self)@ == (SendModel { to_email: Some(value@), ..old(self)@ }),
            old(self)@.series_name is Some && (old(self)@.interactive || (old(self)@.first_commit is Some
                && old(self)@.last_commit is Some)) && old(self)@.to_email is Some ==> (r matches Err(e)
                && e.spec_code() == CommandBuilderErrorCode::UnexpectedValue) && final(self)@ == old(self)@,
    {
        if self.series_name.is_none() {
            self.series_name = Some(value.to_owned());
            return Ok(());
        }
        if !self.interactive && self.first_commit.is_none() {
            self.first_commit = Some(value.to_owned());
            return Ok(());
        }
        if !self.interactive && self.last_commit.is_none() {
            self.last_commit = Some(value.to_owned());
            return Ok(());
        }
        if self.to_email.is_none() {
            self.to_email = Some(value.to_owned());
            return Ok(());
        }
        Err(CommandBuilderError::unexpected_value(value))
    }

    /// Takes the cc list, trimmed, after the `c` flag.
    pub fn add_flag_and_value(&mut self, flag: &str, value: &str) -> (r: Result<(), CommandBuilderError>)
        ensures
            flag@ == CC_FLAG@ ==> r is Ok
                && final(self)@ == (SendModel { cc: Some(crate::text::trimmed(value@)), ..old(self)@ }),
            flag@ != CC_FLAG@ ==> (r matches Err(e) && e.spec_code() == CommandBuilderErrorCode::UnknownFlag)
                && final(self)@ == old(self)@,
    {
        if str_eq(flag, CC_FLAG) {
            self.cc = Some(trim(value));
            Ok(())
        } else {
            Err(CommandBuilderError::unknown_flag(flag))
        }
    }

    /// Takes the `i` flag.
    pub fn add_flag(&mut self, flag: &str) -> (r: Result<(), CommandBuilderError>)
        ensures
            flag@ == INTERACTIVE_FLAG@ ==> r is Ok
                && final(self)@ == (SendModel { interactive: true, ..old(self)@ }),
            flag@ != INTERACTIVE_FLAG@ ==> (r matches Err(e)
                && e.spec_code() == CommandBuilderErrorCode::UnknownFlag) && final(self)@ == old(self)@,
    {
        if str_eq(flag, INTERACTIVE_FLAG) {
            self.interactive = true;
            Ok(())
        } else {
            Err(CommandBuilderError::unknown_flag(flag))
        }
    }

    /// The `c` flag takes a value, the `i` flag none.
    pub fn requires_value(&self, flag: &str) -> (r: Result<bool, CommandBuilderError>)
        ensures
            flag@ == CC_FLAG@ ==> r == Ok::<bool, CommandBuilderError>(true),
            flag@ == INTERACTIVE_FLAG@ ==> r == Ok::<bool, CommandBuilderError>(false),
            flag@ != CC_FLAG@ && flag@ != INTERACTIVE_FLAG@ ==> (r matches Err(e)
                && e.spec_code() == CommandBuilderErrorCode::UnknownFlag),
    {
        proof {
            reveal_strlit("c");
            reveal_strlit("i");
            assert(CC_FLAG@[0] != INTERACTIVE_FLAG@[0]);
        }
        if str_eq(flag, CC_FLAG) {
            Ok(true)
        } else if str_eq(flag, INTERACTIVE_FLAG) {
            Ok(false)
        } else {
            Err(CommandBuilderError::unknown_flag(flag))
        }
    }

    pub fn name(&self) -> (r: &'static str)
        ensures
            r@ == SEND_SERIES@,
    {
        SEND_SERIES
    }

    /// The command, with the series and the recipient, and the commit range
    /// unless it is chosen interactively.
    pub fn build(&self) -> (r: Result<Command, CommandBuilderError>)
        ensures
            r is Ok <==> self@.series_name is Some && self@.to_email is Some && (self@.interactive
                || (self@.first_commit is Some && self@.last_commit is Some)),
            r matches Ok(c) ==> (c matches Command::SendSeries(x) && x@.series_name == self@.series_name
                && x@.to_email == self@.to_email && x@.cc == self@.cc && x@.interactive == self@.interactive
                && (!self@.interactive ==> x@.first_commit == self@.first_commit
                && x@.last_commit == self@.last_commit)
                && (self@.interactive ==> x@.first_commit is None && x@.last_commit is None)),
            r matches Err(e) ==> e.spec_code() == CommandBuilderErrorCode::MissingValue,
    {
        match (&self.series_name, &self.to_email) {
            (Some(series_name), Some(to_email)) => {
                let mut s = SendSeries {
                    series_name: series_name.clone(),
                    first_commit: None,
                    last_commit: None,
                    to_email: to_email.clone(),
                    cc: crate::text::opt_to_string(crate::text::opt_as_str(&self.cc)),
                    interactive: self.interactive,
                };
                if !self.interactive {
                    match (&self.first_commit, &self.last_commit) {
                        (Some(f), Some(l)) => {
                            s.first_commit = Some(f.clone());
                            s.last_commit = Some(l.clone());
                        },
                        _ => {
                            return Err(CommandBuilderError::missing("Missing first or last commit sha1"));
                        },
                    }
                }
                Ok(Command::SendSeries(s))
            },
            _ => Err(CommandBuilderError::missing("Missing arguments")),
        }
    }
}

/// The `Tag` command: add a trailer to a commit.
pub struct Tag {
    tag: CommitTag,
    value: String,
    commit: String,
}

/// The `UnTag` command: remove one trailer, or every trailer of a kind,
/// from a commit.
pub struct UnTag {
    tag: CommitTag,
    value: Option<String>,
    commit: String,
}

impl Tag {
    pub closed spec fn spec_tag(&self) -> CommitTag {
        self.tag
    }

    pub closed spec fn spec_value(&self) -> Seq<char> {
        self.value@
    }

    pub closed spec fn spec_commit(&self) -> Seq<char> {
        self.commit@
    }

    pub fn tag(&self) -> (r: &CommitTag)
        ensures
            *r == self.spec_tag(),
    {
        &self.tag
    }

    pub fn value(&self) -> (r: &str)
        ensures
            r@ == self.spec_value(),
    {
        self.value.as_str()
    }

    pub fn commit(&self) -> (r: &str)
        ensures
            r@ == self.spec_commit(),
    {
        self.commit.as_str()
    }

    pub fn builder() -> (r: CommandBuilder)
        ensures
            r matches CommandBuilder::Tagging(b) && !b.spec_remove() && b.spec_commit() is None
                && b.spec_tag() is None && b.spec_value() is None,
    {
        CommandBuilder::Tagging(TaggingBuilder::new(false))
    }
}

impl UnTag {
    pub closed spec fn spec_tag(&self) -> CommitTag {
        self.tag
    }

    pub closed spec fn spec_value(&self) -> Option<Seq<char>> {
        opt_seq(self.value)
    }

    pub closed spec fn spec_commit(&self) -> Seq<char> {
        self.commit@
    }

    pub fn tag(&self) -> (r: &CommitTag)
        ensures
            *r == self.spec_tag(),
    {
        &self.tag
    }

    pub fn value(&self) -> (r: Option<&str>)
        ensures
            crate::text::opt_str(r) == self.spec_value(),
    {
        crate::text::opt_as_str(&self.value)
    }

    pub fn commit(&self) -> (r: &str)
        ensures
            r@ == self.spec_commit(),
    {
        self.commit.as_str()
    }

    pub fn builder() -> (r: CommandBuilder)
        ensures
            r matches CommandBuilder::Tagging(b) && b.spec_remove() && b.spec_commit() is None
                && b.spec_tag() is None && b.spec_value() is None,
    {
        CommandBuilder::Tagging(TaggingBuilder::new(true))
    }
}

/// Builds a `Tag` or an `UnTag` command: the commit, the trailer's short
/// name, then its value.
pub struct TaggingBuilder {
    tag: Option<CommitTag>,
    value: Option<String>,
    commit: Option<String>,
    remove: bool,
}

impl TaggingBuilder {
    pub closed spec fn spec_tag(&self) -> Option<CommitTag> {
        self.tag
    }

    pub closed spec fn spec_value(&self) -> Option<Seq<char>> {
        opt_seq(self.value)
    }

    pub closed spec fn spec_commit(&self) -> Option<Seq<char>> {
        opt_seq(self.commit)
    }

    /// Whether the command removes trailers.
    pub closed spec fn spec_remove(&self) -> bool {
        self.remove
    }

    fn new(remove: bool) -> (r: Self)
        ensures
            r.spec_tag() is None,
            r.spec_value() is None,
            r.spec_commit() is None,
            r.spec_remove() == remove,
    {
        Self { tag: None, value: None, commit: None, remove }
    }

    /// Takes the commit, then the trailer's short name, then the value.
    pub fn add_value(&mut self, value: &str) -> (r: Result<(), CommandBuilderError>)
        ensures
            final(self).spec_remove() == old(self).spec_remove(),
            old(self).spec_commit() is None ==> r is Ok && final(self).spec_commit() == Some(value@)
                && final(self).spec_tag() == old(self).spec_tag()
                && final(self).spec_value() == old(self).spec_value(),
            old(self).spec_commit() is Some && old(self).spec_tag() is None ==> r is Ok
                && final(self).spec_commit() == old(self).spec_commit()
                && final(self).spec_value() == old(self).spec_value()
                && (final(self).spec_tag() matches Some(t) && t.spec_text() == (if value@ == "rb"@ {
                    "Reviewed-by"@
                } else if value@ == "so"@ {
                    "Signed-off-by"@
                } else {
                    value@
                })),
            old(self).spec_commit() is Some && old(self).spec_tag() is Some && old(self).spec_value() is None
                ==> r is Ok && final(self).spec_commit() == old(self).spec_commit()
                && final(self).spec_tag() == old(self).spec_tag() && final(self).spec_value() == Some(value@),
            old(self).spec_commit() is Some && old(self).spec_tag() is Some && old(self).spec_value() is Some
                ==> (r matches Err(e) && e.spec_code() == CommandBuilderErrorCode::UnexpectedValue)
                && final(self).spec_commit() == old(self).spec_commit()
                && final(self).spec_tag() == old(self).spec_tag()
                && final(self).spec_value() == old(self).spec_value(),
    {
        if self.commit.is_none() {
            self.commit = Some(value.to_owned());
            return Ok(());
        }
        if self.tag.is_none() {
            self.tag = Some(CommitTag::from_mnemonic(value));
            return Ok(());
        }
        if self.value.is_none() {
            self.value = Some(value.to_owned());
            return Ok(());
        }
        Err(CommandBuilderError::unexpected_value(value))
    }

    pub fn name(&self) -> (r: &'static str)
        ensures
            r@ == if self.spec_remove() { UNTAG@ } else { TAG@ },
    {
        if self.remove {
            UNTAG
        } else {
            TAG
        }
    }

    /// A tag needs the commit, the trailer and its value; removing needs the
    /// commit and the trailer, and without a value removes every trailer of
    /// that kind.
    pub fn build(&self) -> (r: Result<Command, CommandBuilderError>)
        ensures
            r is Ok <==> self.spec_commit() is Some && self.spec_tag() is Some
                && (self.spec_remove() || self.spec_value() is Some),
            r matches Ok(c) ==> (!self.spec_remove() ==> (c matches Command::Tag(t)
                && Some(t.spec_commit()) == self.spec_commit() && Some(t.spec_value()) == self.spec_value()
                && Some(t.spec_tag().spec_text()) == (match self.spec_tag() { Some(x) => Some(x.spec_text()), None => None }))),
            r matches Ok(c) ==> (self.spec_remove() ==> (c matches Command::UnTag(t)
                && Some(t.spec_commit()) == self.spec_commit() && t.spec_value() == self.spec_value()
                && Some(t.spec_tag().spec_text()) == (match self.spec_tag() { Some(x) => Some(x.spec_text()), None => None }))),
            r matches Err(e) ==> e.spec_code() == CommandBuilderErrorCode::MissingValue,
    {
        match (&self.tag, &self.commit) {
            (Some(tag), Some(commit)) => {
                let tag = CommitTag::from_text(tag);
                if self.remove {
                    Ok(Command::UnTag(UnTag {
                        tag,
                        value: crate::text::opt_to_string(crate::text::opt_as_str(&self.value)),
                        commit: commit.clone(),
                    }))
                } else {
                    match &self.value {
                        Some(v) => Ok(Command::Tag(Tag { tag, value: v.clone(), commit: commit.clone() })),
                        None => Err(CommandBuilderError::missing("Missing values")),
                    }
                }
            },
            _ => Err(CommandBuilderError::missing("Missing values")),
        }
    }
}

/// The `Help` command.
pub struct Help {}

impl Help {
    pub fn new() -> (r: Self) {
        Self {}
    }
}

/// The `SetVerbose` command.
pub struct SetVerbose {}

impl SetVerbose {
    pub fn new() -> (r: Self) {
        Self {}
    }
}

/// A command ready to run.
pub enum Command {
    ListSeries(ListSeries),
    RegisterRepo(RegisterRepo),
    DeleteRepo(DeleteRepo),
    ListRepos(ListRepos),
    CreateSeries(CreateSeries),
    DeleteSeries(DeleteSeries),
    EditSeries(EditSeries),
    Configure(Configure),
    AddRevision(AddRevision),
    DeleteRevision(DeleteRevision),
    EditRevision(EditRevision),
    SendSeries(SendSeries),
    ShowSeries(ShowSeries),
    AddMailingList(AddMailingList),
    DeleteMailingList(DeleteMailingList),
    CleanTmp(CleanTmp),
    EditCVSkel(EditCVSkel),
    Tag(Tag),
    UnTag(UnTag),
    Help(Help),
    SetVerbose(SetVerbose),
}

/// The builder of a command being parsed.
pub enum CommandBuilder {
    ListSeries(ListSeriesBuilder),
    RegisterRepo(RegisterRepoBuilder),
    DeleteRepo(DeleteRepoBuilder),
    ListRepos(ListReposBuilder),
    CreateSeries(CreateSeriesBuilder),
    DeleteSeries(DeleteSeriesBuilder),
    EditSeries(EditSeriesBuilder),
    Configure(ConfigureBuilder),
    AddRevision(AddRevisionBuilder),
    DeleteRevision(DeleteRevisionBuilder),
    EditRevision(EditRevisionBuilder),
    SendSeries(SendSeriesBuilder),
    ShowSeries(ShowSeriesBuilder),
    AddMailingList(AddMailingListBuilder),
    DeleteMailingList(DeleteMailingListBuilder),
    CleanTmp(CleanTmpBuilder),
    EditCVSkel(EditCVSkelBuilder),
    Tagging(TaggingBuilder),
}

impl CommandBuilder {
    /// Whether the command takes flags at all.
    pub open spec fn takes_flags(&self) -> bool {
        self is Configure || self is ShowSeries || self is SendSeries
    }

    /// Takes a flag that has no value.
    pub fn add_flag(&mut self, flag: &str) -> (r: Result<(), CommandBuilderError>)
        ensures
            !(*old(self)).takes_flags() ==> (r matches Err(e) && e.spec_code() == CommandBuilderErrorCode::UnknownFlag),
    {
        match self {
            CommandBuilder::Configure(b) => b.add_flag(flag),
            CommandBuilder::ShowSeries(b) => b.add_flag(flag),
            CommandBuilder::SendSeries(b) => b.add_flag(flag),
            _ => Err(CommandBuilderError::unknown_flag(flag)),
        }
    }

    /// Takes a value.
    pub fn add_value(&mut self, value: &str) -> (r: Result<(), CommandBuilderError>)
        ensures
            (*old(self) is ListSeries || *old(self) is DeleteRepo || *old(self) is ListRepos
                || *old(self) is CleanTmp || *old(self) is EditCVSkel) ==> (r matches Err(e)
                && e.spec_code() == CommandBuilderErrorCode::UnexpectedValue),
    {
        match self {
            CommandBuilder::RegisterRepo(b) => b.add_value(value),
            CommandBuilder::CreateSeries(b) => b.add_value(value),
            CommandBuilder::DeleteSeries(b) => b.add_value(value),
            CommandBuilder::EditSeries(b) => b.add_value(value),
            CommandBuilder::Configure(b) => b.add_value(value),
            CommandBuilder::AddRevision(b) => b.add_value(value),
            CommandBuilder::DeleteRevision(b) => b.add_value(value),
            CommandBuilder::EditRevision(b) => b.add_value(value),
            CommandBuilder::SendSeries(b) => b.add_value(value),
            CommandBuilder::ShowSeries(b) => b.add_value(value),
            CommandBuilder::AddMailingList(b) => b.add_value(value),
            CommandBuilder::DeleteMailingList(b) => b.add_value(value),
            CommandBuilder::Tagging(b) => b.add_value(value),
            _ => Err(CommandBuilderError::unexpected_value(value)),
        }
    }

    /// Takes a flag with its value.
    pub fn add_flag_and_value(&mut self, flag: &str, value: &str) -> (r: Result<(), CommandBuilderError>)
        ensures
            !(*old(self) is SendSeries) ==> (r matches Err(e) && e.spec_code() == CommandBuilderErrorCode::UnknownFlag),
    {
        match self {
            CommandBuilder::SendSeries(b) => b.add_flag_and_value(flag, value),
            _ => Err(CommandBuilderError::unknown_flag(flag)),
        }
    }

    /// Whether a flag takes a value; an error for a flag the command does not
    /// know.
    pub fn requires_value(&self, flag: &str) -> (r: Result<bool, CommandBuilderError>)
        ensures
            !self.takes_flags() ==> (r matches Err(e) && e.spec_code() == CommandBuilderErrorCode::UnknownFlag),
    {
        match self {
            CommandBuilder::Configure(b) => b.requires_value(flag),
            CommandBuilder::ShowSeries(b) => b.requires_value(flag),
            CommandBuilder::SendSeries(b) => b.requires_value(flag),
            _ => Err(CommandBuilderError::unknown_flag(flag)),
        }
    }

    /// The word that names the command.
    pub open spec fn spec_name(&self) -> Seq<char> {
        match self {
            CommandBuilder::ListSeries(_) => LIST_SERIES@,
            CommandBuilder::RegisterRepo(_) => REGISTER_REPO@,
            CommandBuilder::DeleteRepo(_) => DELETE_REPO@,
            CommandBuilder::ListRepos(_) => LIST_REPOS@,
            CommandBuilder::CreateSeries(_) => CREATE_SERIES@,
            CommandBuilder::DeleteSeries(_) => DELETE_SERIES@,
            CommandBuilder::EditSeries(_) => EDIT_SERIES@,
            CommandBuilder::Configure(_) => CONFIGURE@,
            CommandBuilder::AddRevision(_) => ADD_REVISION@,
            CommandBuilder::DeleteRevision(_) => DELETE_REVISION@,
            CommandBuilder::EditRevision(_) => EDIT_REVISION@,
            CommandBuilder::SendSeries(_) => SEND_SERIES@,
            CommandBuilder::ShowSeries(_) => SHOW_SERIES@,
            CommandBuilder::AddMailingList(_) => ADD_LIST@,
            CommandBuilder::DeleteMailingList(_) => DELETE_LIST@,
            CommandBuilder::CleanTmp(_) => ADD_REVISION@,
            CommandBuilder::EditCVSkel(_) => EDIT_CV_SKEL@,
            CommandBuilder::Tagging(b) => if b.spec_remove() { UNTAG@ } else { TAG@ },
        }
    }

    /// The word that names the command.
    pub fn name(&self) -> (r: &'static str)
        ensures
            r@ == self.spec_name(),
    {
        match self {
            CommandBuilder::ListSeries(b) => b.name(),
            CommandBuilder::RegisterRepo(b) => b.name(),
            CommandBuilder::DeleteRepo(b) => b.name(),
            CommandBuilder::ListRepos(b) => b.name(),
            CommandBuilder::CreateSeries(b) => b.name(),
            CommandBuilder::DeleteSeries(b) => b.name(),
            CommandBuilder::EditSeries(b) => b.name(),
            CommandBuilder::Configure(b) => b.name(),
            CommandBuilder::AddRevision(b) => b.name(),
            CommandBuilder::DeleteRevision(b) => b.name(),
            CommandBuilder::EditRevision(b) => b.name(),
            CommandBuilder::SendSeries(b) => b.name(),
            CommandBuilder::ShowSeries(b) => b.name(),
            CommandBuilder::AddMailingList(b) => b.name(),
            CommandBuilder::DeleteMailingList(b) => b.name(),
            CommandBuilder::CleanTmp(b) => b.name(),
            CommandBuilder::EditCVSkel(b) => b.name(),
            CommandBuilder::Tagging(b) => b.name(),
        }
    }

    /// The command, once its arguments are complete.
    pub fn build(&self) -> (r: Result<Command, CommandBuilderError>)
        ensures
            (self is ListSeries || self is DeleteRepo || self is ListRepos || self is CleanTmp
                || self is EditCVSkel) ==> r is Ok,
    {
        match self {
            CommandBuilder::ListSeries(b) => b.build(),
            CommandBuilder::RegisterRepo(b) => b.build(),
            CommandBuilder::DeleteRepo(b) => b.build(),
            CommandBuilder::ListRepos(b) => b.build(),
            CommandBuilder::CreateSeries(b) => b.build(),
            CommandBuilder::DeleteSeries(b) => b.build(),
            CommandBuilder::EditSeries(b) => b.build(),
            CommandBuilder::Configure(b) => b.build(),
            CommandBuilder::AddRevision(b) => b.build(),
            CommandBuilder::DeleteRevision(b) => b.build(),
            CommandBuilder::EditRevision(b) => b.build(),
            CommandBuilder::SendSeries(b) => b.build(),
            CommandBuilder::ShowSeries(b) => b.build(),
            CommandBuilder::AddMailingList(b) => b.build(),
            CommandBuilder::DeleteMailingList(b) => b.build(),
            CommandBuilder::CleanTmp(b) => b.build(),
            CommandBuilder::EditCVSkel(b) => b.build(),
            CommandBuilder::Tagging(b) => b.build(),
        }
    }
}

/// The builder of the command a word names, fresh; none for an unknown word.
pub fn get_command_builder(name: &str) -> (r: Option<CommandBuilder>)
    ensures
        r is Some <==> is_command_name(name@),
        r matches Some(b) ==> b.spec_name() == name@ || (name@ == CLEAN_TMP@ && b is CleanTmp
            && b.spec_name() == ADD_REVISION@),
{
    if str_eq(name, LIST_SERIES) {
        Some(ListSeries::builder())
    } else if str_eq(name, REGISTER_REPO) {
        Some(RegisterRepo::builder())
    } else if str_eq(name, DELETE_REPO) {
        Some(DeleteRepo::builder())
    } else if str_eq(name, LIST_REPOS) {
        Some(ListRepos::builder())
    } else if str_eq(name, CREATE_SERIES) {
        Some(CreateSeries::builder())
    } else if str_eq(name, DELETE_SERIES) {
        Some(DeleteSeries::builder())
    } else if str_eq(name, EDIT_SERIES) {
        Some(EditSeries::builder())
    } else if str_eq(name, CONFIGURE) {
        Some(Configure::builder())
    } else if str_eq(name, ADD_REVISION) {
        Some(AddRevision::builder())
    } else if str_eq(name, DELETE_REVISION) {
        Some(DeleteRevision::builder())
    } else if str_eq(name, EDIT_REVISION) {
        Some(EditRevision::builder())
    } else if str_eq(name, SEND_SERIES) {
        Some(SendSeries::builder())
    } else if str_eq(name, SHOW_SERIES) {
        Some(ShowSeries::builder())
    } else if str_eq(name, ADD_LIST) {
        Some(AddMailingList::builder())
    } else if str_eq(name, DELETE_LIST) {
        Some(DeleteMailingList::builder())
    } else if str_eq(name, CLEAN_TMP) {
        Some(CleanTmp::builder())
    } else {
        None
    }
}

/// The words that name a command.
pub open spec fn is_command_name(n: Seq<char>) -> bool {
    n == LIST_SERIES@ || n == REGISTER_REPO@ || n == DELETE_REPO@ || n == LIST_REPOS@ || n == CREATE_SERIES@
        || n == DELETE_SERIES@ || n == EDIT_SERIES@ || n == CONFIGURE@ || n == ADD_REVISION@
        || n == DELETE_REVISION@ || n == EDIT_REVISION@ || n == SEND_SERIES@ || n == SHOW_SERIES@
        || n == ADD_LIST@ || n == DELETE_LIST@ || n == CLEAN_TMP@
}


/// The series named `name` in the current repository, with its index.
pub open spec fn current_series(ud: UserData, name: Seq<char>) -> Option<(int, Series)> {
    match ud.spec_repo() {
        Some(d) => match series_index(d.spec_repo()@, name) {
            Some(i) => Some((i, d.spec_repo()@[i])),
            None => None,
        },
        None => None,
    }
}

/// The series of the current repository, none when there is no current
/// repository.
pub open spec fn current_series_list(ud: UserData) -> Option<Seq<Series>> {
    match ud.spec_repo() {
        Some(d) => Some(d.spec_repo()@),
        None => None,
    }
}

/// Nothing that the commands read changed.
pub open spec fn unchanged(before: UserData, after: UserData) -> bool {
    &&& after.spec_root() == before.spec_root()
    &&& current_series_list(after) == current_series_list(before)
}

/// The series of `after` are those of `before` with series `i` replaced by
/// one that `changed` relates to the old one.
pub open spec fn only_series_changed(before: UserData, after: UserData, i: int) -> bool {
    &&& after.spec_root() == before.spec_root()
    &&& current_series_list(before) matches Some(b)
    &&& current_series_list(after) matches Some(a)
    &&& a.len() == b.len()
    &&& forall|j: int| 0 <= j < a.len() && j != i ==> a[j] == b[j]
    &&& a[i]@.name == b[i]@.name
}

impl AddRevision {
    /// Adds a revision to the named series of the current repository.
    pub fn exec(&self, user_data: &mut UserData) -> (r: Result<String, String>)
        requires
            old(user_data).wf(),
        ensures
            final(user_data).wf(),
            r is Ok <==> (current_series(*old(user_data), self@.series_name) matches Some((i, s))
                && s@.contents.len() + 2 <= u32::MAX),
            r is Err ==> unchanged(*old(user_data), *final(user_data)),
            r is Ok ==> (current_series(*old(user_data), self@.series_name) matches Some((i, s))
                && (only_series_changed(*old(user_data), *final(user_data), i)
                && (current_series_list(*final(user_data)) matches Some(a)
                && a[i]@.contents == s@.contents.push(Seq::empty())))),
    {
        let Some(current) = user_data.repo() else {
            return Err("Not in a repo".to_owned());
        };
        let Some(found) = current.repo().get_series_by_name(self.series_name.as_str()) else {
            return Err("Error, unknown series".to_owned());
        };
        proof {
            lemma_series_index(current.spec_repo()@, self@.series_name);
            let i = series_index(current.spec_repo()@, self@.series_name).unwrap();
            assert(current.spec_repo()@[i].wf());
        }
        if found.current_revision() == u32::MAX {
            return Err("Too many revisions".to_owned());
        }
        let Some(repo) = user_data.repo_mut() else {
            return Err("Not in a repo".to_owned());
        };
        let rp = repo.repo_mut();
        let Some(series) = rp.get_series_by_name_mut(self.series_name.as_str()) else {
            return Err("Error, unknown series".to_owned());
        };
        proof {
            lemma_series_index(old(user_data).spec_repo().unwrap().spec_repo()@, self@.series_name);
            let i = series_index(old(user_data).spec_repo().unwrap().spec_repo()@, self@.series_name).unwrap();
            assert(old(user_data).spec_repo().unwrap().spec_repo()@[i].wf());
        }
        series.add_revision();
        Ok("Revision added".to_owned())
    }
}


impl DeleteRevision {
    /// Deletes a revision of the named series; a revision that does not
    /// exist is left alone.
    pub fn exec(&self, user_data: &mut UserData) -> (r: Result<String, String>)
        requires
            old(user_data).wf(),
        ensures
            final(user_data).wf(),
            r is Ok <==> current_series(*old(user_data), self@.series_name) is Some,
            r is Err ==> unchanged(*old(user_data), *final(user_data)),
            r is Ok ==> (current_series(*old(user_data), self@.series_name) matches Some((i, s))
                && (only_series_changed(*old(user_data), *final(user_data), i)
                && (current_series_list(*final(user_data)) matches Some(a)
                && a[i]@.contents == if revision_exists(s@.contents.len(), self@.revision as int) {
                    s@.contents.remove(self@.revision - 2)
                } else {
                    s@.contents
                }))),
    {
        let Some(repo) = user_data.repo_mut() else {
            return Err("Not in a repo".to_owned());
        };
        let rp = repo.repo_mut();
        let Some(series) = rp.get_series_by_name_mut(self.series_name.as_str()) else {
            return Err("Unknown series".to_owned());
        };
        proof {
            lemma_series_index(old(user_data).spec_repo().unwrap().spec_repo()@, self@.series_name);
            let i = series_index(old(user_data).spec_repo().unwrap().spec_repo()@, self@.series_name).unwrap();
            assert(old(user_data).spec_repo().unwrap().spec_repo()@[i].wf());
        }
        series.delete_revision(self.revision);
        Ok("Revision deleted".to_owned())
    }
}

impl DeleteSeries {
    /// Deletes the named series of the current repository.
    pub fn exec(&self, user_data: &mut UserData) -> (r: Result<String, String>)
        requires
            old(user_data).wf(),
        ensures
            final(user_data).wf(),
            final(user_data).spec_root() == old(user_data).spec_root(),
            r is Ok <==> (current_series_list(*old(user_data)) matches Some(l) && has_series(l, self@.name)),
            r is Err ==> unchanged(*old(user_data), *final(user_data)),
            r is Ok ==> (current_series_list(*old(user_data)) matches Some(l)
                && (current_series_list(*final(user_data)) == Some(without_series(l, self@.name)))),
    {
        let Some(repo) = user_data.repo_mut() else {
            return Err("Not in a repo".to_owned());
        };
        match repo.repo_mut().delete_series(self.name.as_str()) {
            Ok(()) => Ok("Series deleted".to_owned()),
            Err(e) => Err(e.message().to_owned()),
        }
    }
}

impl AddMailingList {
    /// Registers a mailing list.
    pub fn exec(&self, user_data: &mut UserData) -> (r: Result<String, String>)
        requires
            old(user_data).wf(),
        ensures
            final(user_data).wf(),
            final(user_data).spec_repo() == old(user_data).spec_repo(),
            r is Ok <==> list_index(old(user_data).spec_root().spec_lists(), self@.name) is None
                && email_valid(self@.email) && valid_list_name(self@.name),
            r is Ok ==> final(user_data).spec_root().spec_lists().last()@ == (self@.name, self@.email),
            r is Err ==> final(user_data).spec_root().spec_lists() == old(user_data).spec_root().spec_lists(),
    {
        match user_data.add_mailing_list(self.name.as_str(), self.email.as_str()) {
            Ok(()) => Ok("List added".to_owned()),
            Err(_) => Err("The list cannot be added".to_owned()),
        }
    }
}

impl DeleteMailingList {
    /// Forgets a mailing list.
    pub fn exec(&self, user_data: &mut UserData) -> (r: Result<String, String>)
        requires
            old(user_data).wf(),
        ensures
            final(user_data).wf(),
            final(user_data).spec_repo() == old(user_data).spec_repo(),
            r is Ok <==> list_index(old(user_data).spec_root().spec_lists(), self@.name) is Some,
            r is Err ==> final(user_data).spec_root().spec_lists() == old(user_data).spec_root().spec_lists(),
    {
        match user_data.delete_mailing_list(self.name.as_str()) {
            Ok(()) => Ok("List deleted".to_owned()),
            Err(_) => Err("The list is not known".to_owned()),
        }
    }
}

/// The port a value gives: a number that `u16` holds.
pub open spec fn parsed_port(v: Seq<char>) -> Option<u16> {
    match parsed_usize(v) {
        Some(n) => if n <= 65535 { Some(n as u16) } else { None },
        None => None,
    }
}

/// The configuration after setting `option` to `value`, or unsetting it
/// when there is no value; none when the setting cannot be unset. A port
/// that does not parse leaves the configuration as it is.
pub open spec fn configured(m: ConfigModel, option: ConfigOption, value: Option<Seq<char>>) -> Option<ConfigModel> {
    match (option, value) {
        (ConfigOption::Editor, Some(v)) => Some(ConfigModel { editor: Some(v), ..m }),
        (ConfigOption::FromEmail, Some(v)) => Some(ConfigModel { from_email: Some(v), ..m }),
        (ConfigOption::Editor, None) => None,
        (ConfigOption::FromEmail, None) => None,
        (ConfigOption::SendCommand, v) => Some(ConfigModel { send_command: v, ..m }),
        (ConfigOption::SmtpServer, v) => Some(ConfigModel { smtp_server: v, ..m }),
        (ConfigOption::SmtpUser, v) => Some(ConfigModel { smtp_user: v, ..m }),
        (ConfigOption::SmtpEncryption, v) => Some(ConfigModel { smtp_encryption: v, ..m }),
        (ConfigOption::SmtpPort, None) => Some(ConfigModel { smtp_port: None, ..m }),
        (ConfigOption::SmtpPort, Some(v)) => match parsed_port(v) {
            Some(p) => Some(ConfigModel { smtp_port: Some(p), ..m }),
            None => Some(m),
        },
    }
}

impl Configure {
    /// Sets or unsets a setting; the editor and the sender's address cannot
    /// be unset.
    pub fn exec(&self, user_data: &mut UserData) -> (r: Result<String, String>)
        requires
            old(user_data).wf(),
        ensures
            final(user_data).wf(),
            final(user_data).spec_repo() == old(user_data).spec_repo(),
            match configured(old(user_data).spec_root().spec_config()@, self.spec_option(), self.spec_value()) {
                Some(m) => r is Ok && final(user_data).spec_root().spec_config()@ == m,
                None => r is Err && final(user_data).spec_root().spec_config()@ == old(user_data).spec_root().spec_config()@,
            },
    {
        let option = self.option;
        let config = user_data.config_mut();
        match &self.value {
            Some(value) => {
                match option {
                    ConfigOption::Editor => config.set_editor(value.as_str()),
                    ConfigOption::FromEmail => config.set_from_email(value.as_str()),
                    ConfigOption::SendCommand => config.set_send_command(Some(value.as_str())),
                    ConfigOption::SmtpServer => config.set_smtp_server(Some(value.as_str())),
                    ConfigOption::SmtpUser => config.set_smtp_user(Some(value.as_str())),
                    ConfigOption::SmtpEncryption => config.set_smtp_encryption(Some(value.as_str())),
                    ConfigOption::SmtpPort => {
                        if let Some(n) = parse_usize(value.as_str()) {
                            if n <= 65535 {
                                config.set_smtp_port(Some(n as u16));
                            }
                        }
                    },
                }
                Ok("New value set".to_owned())
            },
            None => {
                match option {
                    ConfigOption::SendCommand => config.set_send_command(None),
                    ConfigOption::SmtpServer => config.set_smtp_server(None),
                    ConfigOption::SmtpUser => config.set_smtp_user(None),
                    ConfigOption::SmtpPort => config.set_smtp_port(None),
                    ConfigOption::SmtpEncryption => config.set_smtp_encryption(None),
                    _ => {
                        return Err("This setting cannot be unset".to_owned());
                    },
                }
                Ok("Value unset".to_owned())
            },
        }
    }
}

impl CreateSeries {
    /// Creates a series in the current repository. Its short name is the
    /// name of the repository's directory when that is a valid short name,
    /// and its cover letter the configured skeleton, if any.
    pub fn exec(&self, user_data: &mut UserData) -> (r: Result<String, String>)
        requires
            old(user_data).wf(),
        ensures
            final(user_data).wf(),
            final(user_data).spec_root() == old(user_data).spec_root(),
            r is Ok <==> (current_series_list(*old(user_data)) matches Some(l)
                && valid_name(trimmed(self@.name)) && valid_title(trimmed(self@.title))
                && !has_series(l, trimmed(self@.name))),
            r is Err ==> unchanged(*old(user_data), *final(user_data)),
            r is Ok ==> (current_series_list(*old(user_data)) matches Some(l)
                && (!has_series(l, trimmed(self@.name))
                && (current_series_list(*final(user_data)) matches Some(l2)
                && l2.drop_last() == l && l2.last()@.name == trimmed(self@.name)
                && l2.last()@.title == trimmed(self@.title) && l2.last()@.contents.len() == 0))),
    {
        let cv_skel = crate::text::opt_to_string(user_data.config().cv_skel());
        let Some(repo) = user_data.repo_mut() else {
            return Err("Not in a repo".to_owned());
        };
        let dirname = repo.meta().dirname();
        let short_name = Series::validate_short_name(dirname.as_str());
        proof {
            if short_name is Some {
                crate::series::lemma_short_name_trimmed(short_name.unwrap()@);
            }
        }
        match repo.repo_mut().add_series(
            self.name.as_str(),
            self.title.as_str(),
            crate::text::opt_as_str(&short_name),
            crate::text::opt_as_str(&cv_skel),
        ) {
            Ok(()) => Ok("Series created".to_owned()),
            Err(e) => Err(e.message().to_owned()),
        }
    }
}

/// A line of the list of series: its name and its current revision.
pub open spec fn series_line(s: SeriesModel) -> Seq<char> {
    "- "@ + s.name + " (v"@ + decimal((s.contents.len() + 1) as nat) + ")"@
}

impl ListSeries {
    /// One line for each series of the current repository.
    pub fn exec(&self, user_data: &UserData) -> (r: Result<Vec<String>, String>)
        requires
            user_data.wf(),
        ensures
            r is Ok <==> user_data.spec_repo() is Some,
            r matches Ok(v) ==> (current_series_list(*user_data) matches Some(l) && (v@.len() == l.len()
                && forall|k: int| 0 <= k < l.len() ==> (#[trigger] v@[k])@ == series_line(l[k]@))),
    {
        let Some(repo) = user_data.repo() else {
            return Err("Not in a repo".to_owned());
        };
        let all = repo.repo().series();
        let mut out: Vec<String> = Vec::new();
        let mut i: usize = 0;
        while i < all.len()
            invariant
                0 <= i <= all@.len(),
                all@ == repo.spec_repo()@,
                repo.spec_repo().wf(),
                out@.len() == i,
                forall|k: int| 0 <= k < i ==> (#[trigger] out@[k])@ == series_line(all@[k]@),
            decreases all@.len() - i,
        {
            let s = &all[i];
            assert(all@[i as int].wf());
            let mut line = chars_of("- ");
            extend_chars(&mut line, &chars_of(s.name()));
            extend_chars(&mut line, &chars_of(" (v"));
            extend_chars(&mut line, &decimal_chars(s.current_revision() as u64));
            extend_chars(&mut line, &chars_of(")"));
            assert(line@ =~= series_line(s@));
            out.push(string_of(line.as_slice()));
            i = i + 1;
        }
        Ok(out)
    }
}

impl ShowSeries {
    /// The named series as it is shown, with its identity fields and its
    /// log when verbose; lines end with `sep`.
    pub fn exec(&self, user_data: &UserData, sep: &str) -> (r: Result<String, String>)
        requires
            user_data.wf(),
        ensures
            r is Ok <==> current_series(*user_data, self.spec_series_name()) is Some,
            r matches Ok(t) ==> (current_series(*user_data, self.spec_series_name()) matches Some((i, s))
                && t@ == (if self.spec_verbose() {
                    describe_series(s@, sep@)
                } else {
                    render_series(s@.cover_letter, s@.contents, sep@)
                })),
    {
        let Some(repo) = user_data.repo() else {
            return Err("Not in a repo".to_owned());
        };
        let Some(series) = repo.repo().get_series_by_name(self.series_name.as_str()) else {
            return Err("Unknown series".to_owned());
        };
        proof {
            lemma_series_index(repo.spec_repo()@, self.spec_series_name());
            let i = series_index(repo.spec_repo()@, self.spec_series_name()).unwrap();
            assert(repo.spec_repo()@[i].wf());
        }
        if self.verbose {
            Ok(series.describe(sep))
        } else {
            Ok(series.render(sep))
        }
    }
}

/// Whether `m` records the current repository.
pub open spec fn is_current_repo(ud: UserData, m: RepoMetadata) -> bool {
    match ud.spec_repo() {
        Some(d) => d.spec_meta()@ == m@,
        None => false,
    }
}

impl ListRepos {
    /// One line for each registered repository, and whether it is the
    /// current one.
    pub fn exec(&self, user_data: &UserData) -> (r: Vec<(String, bool)>)
        ensures
            r@.len() == user_data.spec_root().spec_repos().len(),
            forall|k: int| 0 <= k < r@.len() ==> {
                let m = #[trigger] user_data.spec_root().spec_repos()[k];
                &&& r@[k].0@ == "- "@ + m@.0 + " : "@ + m@.1
                &&& r@[k].1 == is_current_repo(*user_data, m)
            },
    {
        let repos = user_data.repos();
        let current = user_data.repo();
        let mut out: Vec<(String, bool)> = Vec::new();
        let mut i: usize = 0;
        while i < repos.len()
            invariant
                0 <= i <= repos@.len(),
                repos@ == user_data.spec_root().spec_repos(),
                current matches Some(d) ==> user_data.spec_repo() == Some(*d),
                current is None <==> user_data.spec_repo() is None,
                out@.len() == i,
                forall|k: int| 0 <= k < i ==> {
                    let m = #[trigger] user_data.spec_root().spec_repos()[k];
                    &&& out@[k].0@ == "- "@ + m@.0 + " : "@ + m@.1
                    &&& out@[k].1 == is_current_repo(*user_data, m)
                },
            decreases repos@.len() - i,
        {
            let m = &repos[i];
            let mut line = chars_of("- ");
            extend_chars(&mut line, &chars_of(m.name()));
            extend_chars(&mut line, &chars_of(" : "));
            extend_chars(&mut line, &chars_of(m.path()));
            let is_current = match current {
                Some(d) => d.meta().same(m),
                None => false,
            };
            assert(line@ =~= "- "@ + m@.0 + " : "@ + m@.1);
            let ghost before = out@;
            proof {
                assert(*m == user_data.spec_root().spec_repos()[i as int]);
                assert(is_current == is_current_repo(*user_data, *m));
            }
            let text = string_of(line.as_slice());
            out.push((text, is_current));
            assert(out@[i as int].0@ == line@);
            assert(out@[i as int].1 == is_current);
            assert forall|k: int| 0 <= k < i + 1 implies {
                let m = #[trigger] user_data.spec_root().spec_repos()[k];
                &&& out@[k].0@ == "- "@ + m@.0 + " : "@ + m@.1
                &&& out@[k].1 == is_current_repo(*user_data, m)
            } by {
                if k < i {
                    assert(out@[k] == before[k]);
                }
            }
            i = i + 1;
        }
        assert(i == repos@.len());
        assert forall|k: int| 0 <= k < out@.len() implies {
            let m = #[trigger] user_data.spec_root().spec_repos()[k];
            &&& out@[k].0@ == "- "@ + m@.0 + " : "@ + m@.1
            &&& out@[k].1 == is_current_repo(*user_data, m)
        } by {
            assert(k < i);
        }
        out
    }
}

impl DeleteRepo {
    /// Forgets the current repository.
    pub fn exec(&self, user_data: &mut UserData) -> (r: Result<String, String>)
        requires
            old(user_data).wf(),
        ensures
            final(user_data).wf(),
            r is Ok <==> (old(user_data).spec_repo() matches Some(d)
                && exists|i: int| 0 <= i < old(user_data).spec_root().spec_repos().len()
                    && (#[trigger] old(user_data).spec_root().spec_repos()[i])@.0 == d.spec_meta()@.0),
            r is Ok ==> final(user_data).spec_repo() is None,
            r is Err ==> final(user_data).spec_root().spec_repos() == old(user_data).spec_root().spec_repos(),
    {
        let name = match user_data.repo() {
            Some(d) => d.meta().name().to_owned(),
            None => {
                return Err("Not in a repo".to_owned());
            },
        };
        match user_data.delete_repo(name.as_str()) {
            Ok(()) => Ok("Repo deleted".to_owned()),
            Err(_) => Err("The repo is not registered".to_owned()),
        }
    }
}

impl RegisterRepo {
    /// Registers the repository that holds `path` under the command's name;
    /// `root` is that repository's root, none when `path` is in none.
    pub fn exec(&self, user_data: &mut UserData, path: &str, root: Option<&str>) -> (r: Result<String, String>)
        requires
            old(user_data).wf(),
        ensures
            final(user_data).wf(),
            r is Ok <==> !repo_known(old(user_data).spec_root().spec_repos(), self@.name, path@) && root is Some,
            r is Ok ==> (final(user_data).spec_repo() matches Some(d) && d.spec_meta()@.0 == self@.name),
    {
        match user_data.register_repo(self.name.as_str(), path, root) {
            Ok(()) => Ok("Repo added".to_owned()),
            Err(_) => Err("Failed to register repo".to_owned()),
        }
    }
}

impl EditCVSkel {
    /// Stores an edited cover letter skeleton; one that is blank once
    /// trimmed unsets it.
    pub fn apply(&self, user_data: &mut UserData, new_content: &str)
        requires
            old(user_data).wf(),
        ensures
            final(user_data).wf(),
            final(user_data).spec_repo() == old(user_data).spec_repo(),
            final(user_data).spec_root().spec_config()@ == (ConfigModel {
                cv_skel: if trimmed(new_content@).len() == 0 { None } else { Some(trimmed(new_content@)) },
                ..old(user_data).spec_root().spec_config()@
            }),
    {
        let t = trim(new_content);
        let config = user_data.config_mut();
        if t.as_str().is_empty() {
            config.set_cv_skel(None);
        } else {
            config.set_cv_skel(Some(t.as_str()));
        }
    }
}

impl SendSeries {
    /// The address to send to: that of the mailing list so named, or the
    /// recipient as given.
    pub fn get_to_email(&self, user_data: &UserData) -> (r: String)
        ensures
            list_index(user_data.spec_root().spec_lists(), self@.to_email.unwrap()) is None
                ==> Some(r@) == self@.to_email,
            list_index(user_data.spec_root().spec_lists(), self@.to_email.unwrap()) is Some
                ==> exists|k: int| 0 <= k < user_data.spec_root().spec_lists().len()
                    && (#[trigger] user_data.spec_root().spec_lists()[k])@ == (self@.to_email.unwrap(), r@),
    {
        match user_data.find_mailing_list(self.to_email.as_str()) {
            Some(list) => {
                let e = list.email().to_owned();
                proof {
                    let ls = user_data.spec_root().spec_lists();
                    assert(ls.contains(*list));
                    let k = choose|k: int| 0 <= k < ls.len() && ls[k] == *list;
                    assert(ls[k]@ == (self@.to_email.unwrap(), e@));
                }
                e
            },
            None => self.to_email.clone(),
        }
    }
}

impl Tag {
    /// The message the commit gets, none when it already holds the trailer;
    /// the trailer follows `sep`.
    pub fn new_message(&self, message: &str, sep: &str) -> (r: Option<String>)
        ensures
            r matches Some(m) ==> with_trailer(message@, trailer(self.spec_tag(), Some(self.spec_value())), sep@) == Some(m@),
            r is None ==> with_trailer(message@, trailer(self.spec_tag(), Some(self.spec_value())), sep@) is None,
    {
        add_tag_message(message, &self.tag, Some(self.value.as_str()), sep)
    }
}

impl UnTag {
    /// The message the commit gets: without the trailer of this value, or
    /// without every trailer of this kind when there is no value; kept lines
    /// end with `sep`.
    pub fn new_message(&self, message: &str, sep: &str) -> (r: String)
        ensures
            self.spec_value() matches Some(v) ==> r@ == kept_text(
                lines_of(message@),
                lower_of(trailer(self.spec_tag(), Some(v))),
                false,
                sep@,
            ),
            self.spec_value() is None ==> r@ == kept_text(lines_of(message@), lower_of(self.spec_tag().spec_text() + ": "@), true, sep@),
    {
        match &self.value {
            Some(v) => remove_tag_message(message, &self.tag, Some(v.as_str()), sep),
            None => remove_tag_all_message(message, &self.tag, sep),
        }
    }
}

/// The text of a field of a series.
pub open spec fn field_of(m: SeriesModel, target: EditSeriesTarget) -> Seq<char> {
    match target {
        EditSeriesTarget::Name => m.name,
        EditSeriesTarget::Title => m.title,
        EditSeriesTarget::Cv => m.cover_letter,
        EditSeriesTarget::ShortName => m.short_name,
        EditSeriesTarget::Cc => m.cc,
    }
}

impl EditSeries {
    /// The current text of the field to edit.
    pub fn current_value(&self, user_data: &UserData) -> (r: Result<String, String>)
        ensures
            r is Ok <==> current_series(*user_data, self.spec_series_name()) is Some,
            r matches Ok(t) ==> (current_series(*user_data, self.spec_series_name()) matches Some((i, s))
                && t@ == field_of(s@, self.spec_target())),
    {
        let Some(repo) = user_data.repo() else {
            return Err("Not in a repo".to_owned());
        };
        let Some(series) = repo.repo().get_series_by_name(self.series_name.as_str()) else {
            return Err("Unknown series".to_owned());
        };
        let v = match self.target {
            EditSeriesTarget::Name => series.name(),
            EditSeriesTarget::Title => series.title(),
            EditSeriesTarget::Cv => series.cover_letter(),
            EditSeriesTarget::ShortName => series.short_name(),
            EditSeriesTarget::Cc => series.cc(),
        };
        Ok(v.to_owned())
    }

    /// Whether the edited text is taken: it must be valid for the field
    /// once trimmed, and a name must not be another series' name.
    pub open spec fn accepts(&self, user_data: UserData, new_content: Seq<char>) -> bool {
        let t = trimmed(new_content);
        &&& current_series_list(user_data) matches Some(l)
        &&& current_series(user_data, self.spec_series_name()) is Some
        &&& match self.spec_target() {
            EditSeriesTarget::Name => valid_name(t) && (t == self.spec_series_name() || !has_series(l, t)),
            EditSeriesTarget::Title => valid_title(t),
            EditSeriesTarget::Cv => true,
            EditSeriesTarget::ShortName => t.len() == 0 || valid_short_name(t),
            EditSeriesTarget::Cc => valid_cc_list(t),
        }
    }

    /// Stores the edited text, trimmed, in the field; refused text leaves
    /// everything as it was.
    pub fn apply(&self, user_data: &mut UserData, new_content: &str) -> (r: Result<(), String>)
        requires
            old(user_data).wf(),
        ensures
            final(user_data).wf(),
            final(user_data).spec_root() == old(user_data).spec_root(),
            r is Ok <==> self.accepts(*old(user_data), new_content@),
            r is Err ==> unchanged(*old(user_data), *final(user_data)),
            r is Ok ==> (current_series(*old(user_data), self.spec_series_name()) matches Some((i, s))
                && (current_series_list(*old(user_data)) matches Some(b)
                && (current_series_list(*final(user_data)) matches Some(a)
                && a.len() == b.len()
                && (forall|j: int| 0 <= j < a.len() && j != i ==> a[j] == b[j])
                && a[i]@ == with_field(s@, self.spec_target(), trimmed(new_content@))))),
    {
        let Some(current) = user_data.repo() else {
            return Err("Not in a repo".to_owned());
        };
        let Some(found) = current.repo().get_series_by_name(self.series_name.as_str()) else {
            return Err("Unknown series".to_owned());
        };
        let accepted = match self.target {
            EditSeriesTarget::Name => match Series::validate_name(new_content) {
                Some(t) => str_eq(t.as_str(), self.series_name.as_str())
                    || current.repo().get_series_by_name(t.as_str()).is_none(),
                None => false,
            },
            EditSeriesTarget::Title => Series::validate_title(new_content).is_some(),
            EditSeriesTarget::Cv => true,
            EditSeriesTarget::ShortName => trim(new_content).as_str().is_empty()
                || Series::validate_short_name(new_content).is_some(),
            EditSeriesTarget::Cc => crate::input::sanitize_cc_list(new_content).is_some(),
        };
        if !accepted {
            return Err("The new value is not valid".to_owned());
        }
        let Some(repo) = user_data.repo_mut() else {
            return Err("Not in a repo".to_owned());
        };
        let rp = repo.repo_mut();
        let Some(series) = rp.get_series_by_name_mut(self.series_name.as_str()) else {
            return Err("Unknown series".to_owned());
        };
        proof {
            lemma_series_index(old(user_data).spec_repo().unwrap().spec_repo()@, self.spec_series_name());
            let i = series_index(old(user_data).spec_repo().unwrap().spec_repo()@, self.spec_series_name()).unwrap();
            assert(old(user_data).spec_repo().unwrap().spec_repo()@[i].wf());
        }
        let res = match self.target {
            EditSeriesTarget::Name => series.set_name(new_content),
            EditSeriesTarget::Title => series.set_title(new_content),
            EditSeriesTarget::Cv => series.set_cover_letter(new_content),
            EditSeriesTarget::ShortName => series.set_short_name(new_content),
            EditSeriesTarget::Cc => series.set_cc(new_content),
        };
        match res {
            Ok(()) => Ok(()),
            Err(e) => Err(e.message().to_owned()),
        }
    }
}

/// A series with one field set to a text.
pub open spec fn with_field(m: SeriesModel, target: EditSeriesTarget, t: Seq<char>) -> SeriesModel {
    match target {
        EditSeriesTarget::Name => SeriesModel { name: t, ..m },
        EditSeriesTarget::Title => SeriesModel { title: t, ..m },
        EditSeriesTarget::Cv => SeriesModel { cover_letter: t, ..m },
        EditSeriesTarget::ShortName => SeriesModel { short_name: t, ..m },
        EditSeriesTarget::Cc => SeriesModel { cc: t, ..m },
    }
}

impl EditRevision {
    /// The current content of the revision to edit.
    pub fn current_content(&self, user_data: &UserData) -> (r: Result<String, String>)
        ensures
            r is Ok <==> (current_series(*user_data, self@.series_name) matches Some((i, s))
                && revision_exists(s@.contents.len(), self@.revision as int)),
            r matches Ok(t) ==> (current_series(*user_data, self@.series_name) matches Some((i, s))
                && t@ == s@.contents[self@.revision - 2]),
    {
        let Some(repo) = user_data.repo() else {
            return Err("Not in a repo".to_owned());
        };
        let Some(series) = repo.repo().get_series_by_name(self.series_name.as_str()) else {
            return Err("Unknown series".to_owned());
        };
        let Some(idx) = Series::revision_index(self.revision) else {
            return Err("Unknown revision".to_owned());
        };
        let revs = series.revisions();
        if idx >= revs.len() {
            return Err("Unknown revision".to_owned());
        }
        assert(revs@.map_values(|x: crate::series::SeriesRevision| x@)[idx as int] == revs@[idx as int]@);
        Ok(revs[idx].content().to_owned())
    }

    /// Stores the edited content of the revision, trimmed.
    pub fn apply(&self, user_data: &mut UserData, new_content: &str) -> (r: Result<(), String>)
        requires
            old(user_data).wf(),
        ensures
            final(user_data).wf(),
            r is Ok <==> (current_series(*old(user_data), self@.series_name) matches Some((i, s))
                && revision_exists(s@.contents.len(), self@.revision as int)),
            r is Err ==> unchanged(*old(user_data), *final(user_data)),
            r is Ok ==> (current_series(*old(user_data), self@.series_name) matches Some((i, s))
                && (only_series_changed(*old(user_data), *final(user_data), i)
                && (current_series_list(*final(user_data)) matches Some(a)
                && a[i]@.contents == s@.contents.update(self@.revision - 2, trimmed(new_content@))))),
    {
        let Some(current) = user_data.repo() else {
            return Err("Not in a repo".to_owned());
        };
        let Some(found) = current.repo().get_series_by_name(self.series_name.as_str()) else {
            return Err("Unknown series".to_owned());
        };
        proof {
            lemma_series_index(current.spec_repo()@, self@.series_name);
            let i = series_index(current.spec_repo()@, self@.series_name).unwrap();
            assert(current.spec_repo()@[i].wf());
        }
        let Some(idx) = Series::revision_index(self.revision) else {
            return Err("Unknown revision".to_owned());
        };
        if idx >= found.revisions().len() {
            return Err("Unknown revision".to_owned());
        }
        let Some(repo) = user_data.repo_mut() else {
            return Err("Not in a repo".to_owned());
        };
        let rp = repo.repo_mut();
        let Some(series) = rp.get_series_by_name_mut(self.series_name.as_str()) else {
            return Err("Unknown series".to_owned());
        };
        proof {
            lemma_series_index(old(user_data).spec_repo().unwrap().spec_repo()@, self@.series_name);
            let i = series_index(old(user_data).spec_repo().unwrap().spec_repo()@, self@.series_name).unwrap();
            assert(old(user_data).spec_repo().unwrap().spec_repo()@[i].wf());
        }
        let Some(rev) = series.revision_mut(self.revision) else {
            return Err("Unknown revision".to_owned());
        };
        rev.set_content(new_content);
        Ok(())
    }
}

impl SendSeries {
    /// The sender that the user's configuration describes; the sender's
    /// address must be set.
    pub fn sender(&self, user_data: &UserData) -> (r: Result<GitPatchSender, String>)
        ensures
            r is Ok <==> user_data.spec_root().spec_config()@.from_email is Some,
            r matches Ok(s) ==> {
                let c = user_data.spec_root().spec_config()@;
                &&& Some(s@.from_email) == c.from_email
                &&& s@.send_command == c.send_command
                &&& s@.smtp_server == c.smtp_server
                &&& s@.smtp_port == c.smtp_port
                &&& s@.smtp_user == c.smtp_user
                &&& s@.smtp_encryption == c.smtp_encryption
            },
    {
        let config = user_data.config();
        let Some(from_email) = config.from_email() else {
            return Err("Missing source email".to_owned());
        };
        let mut b = GitPatchSender::builder(from_email);
        if let Some(c) = config.send_command() {
            b.set_send_command(c);
        }
        if let Some(c) = config.smtp_server() {
            b.set_smtp_server(c);
        }
        if let Some(p) = config.smtp_port() {
            b.set_smtp_port(p);
        }
        if let Some(c) = config.smtp_user() {
            b.set_smtp_user(c);
        }
        if let Some(c) = config.smtp_encryption() {
            b.set_smtp_encryption(c);
        }
        Ok(b.build())
    }

    /// Records in the series' log that it was sent to `to_email`.
    pub fn record_sent(&self, user_data: &mut UserData, to_email: &str) -> (r: Result<(), String>)
        requires
            old(user_data).wf(),
        ensures
            final(user_data).wf(),
            r is Ok <==> current_series(*old(user_data), self@.series_name.unwrap()) is Some,
            r is Err ==> unchanged(*old(user_data), *final(user_data)),
            r is Ok ==> (current_series(*old(user_data), self@.series_name.unwrap()) matches Some((i, s))
                && (only_series_changed(*old(user_data), *final(user_data), i)
                && (current_series_list(*final(user_data)) matches Some(a)
                && a[i]@ == (SeriesModel { logs: a[i]@.logs, ..s@ })
                && exists|t: Seq<char>| a[i]@.logs == s@.logs.push(#[trigger] log_line(
                    t,
                    "send"@,
                    "revision "@ + decimal((s@.contents.len() + 1) as nat) + " send to "@ + to_email@,
                ))))),
    {
        let Some(repo) = user_data.repo_mut() else {
            return Err("Not in a repo".to_owned());
        };
        let rp = repo.repo_mut();
        let Some(series) = rp.get_series_by_name_mut(self.series_name.as_str()) else {
            return Err("Unknown series".to_owned());
        };
        proof {
            lemma_series_index(old(user_data).spec_repo().unwrap().spec_repo()@, self@.series_name.unwrap());
            let i = series_index(old(user_data).spec_repo().unwrap().spec_repo()@, self@.series_name.unwrap()).unwrap();
            assert(old(user_data).spec_repo().unwrap().spec_repo()@[i].wf());
        }
        SeriesLog::send(series, to_email);
        Ok(())
    }
}

} // verus!
