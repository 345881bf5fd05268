//! From command-line flags to the one operation an invocation performs.

use crate::error::{UsageError, UsageErrorView};
use crate::region::{parse_region, region_named};
use rusoto_core::Region;
use vstd::prelude::*;

verus! {

/// Page size of a listing when the command line names none.
pub const DEFAULT_MAX_ITEMS: i64 = 100;

/// The flags of one invocation, as parsed and not yet judged.
#[derive(Debug, Clone, PartialEq, Eq)]
pub struct Arguments {
    pub bucket: String,
    pub region: String,
    /// Pattern of the local files to upload.
    pub file_pattern: Option<String>,
    /// Whether list mode was asked for.
    pub list_images: bool,
    /// Page size for list mode.
    pub max_items: Option<i64>,
    /// Cursor at which list mode resumes.
    pub continuation_token: Option<String>,
}

/// Mathematical value of [`Arguments`].
pub struct ArgumentsView {
    pub bucket: Seq<char>,
    pub region: Seq<char>,
    pub file_pattern: Option<Seq<char>>,
    pub list_images: bool,
    pub max_items: Option<i64>,
    pub continuation_token: Option<Seq<char>>,
}

impl View for Arguments {
    type V = ArgumentsView;

    open spec fn view(&self) -> ArgumentsView {
        ArgumentsView {
            bucket: self.bucket@,
            region: self.region@,
            file_pattern: self.file_pattern.deep_view(),
            list_images: self.list_images,
            max_items: self.max_items,
            continuation_token: self.continuation_token.deep_view(),
        }
    }
}

/// The operation of an invocation. Exactly one is ever selected.
#[derive(Debug, Clone, PartialEq, Eq)]
pub enum Command {
    /// Upload every local file that matches `pattern`.
    Upload { pattern: String },
    /// Show one page of at most `max_items` keys, resuming after
    /// `continuation_token` when there is one.
    List { max_items: i64, continuation_token: Option<String> },
}

/// Mathematical value of a [`Command`].
pub enum CommandView {
    Upload { pattern: Seq<char> },
    List { max_items: i64, continuation_token: Option<Seq<char>> },
}

impl View for Command {
    type V = CommandView;

    open spec fn view(&self) -> CommandView {
        match self {
            Command::Upload { pattern } => CommandView::Upload { pattern: pattern@ },
            Command::List { max_items, continuation_token } => CommandView::List {
                max_items: *max_items,
                continuation_token: continuation_token.deep_view(),
            },
        }
    }
}

/// Where the objects live. Fixed for the whole invocation.
#[derive(Debug, Clone, PartialEq, Eq)]
pub struct ClientConfig {
    pub bucket: String,
    /// The region name as the user wrote it.
    pub region: String,
}

/// Mathematical value of a [`ClientConfig`].
pub struct ClientConfigView {
    pub bucket: Seq<char>,
    pub region: Seq<char>,
}

impl View for ClientConfig {
    type V = ClientConfigView;

    open spec fn view(&self) -> ClientConfigView {
        ClientConfigView { bucket: self.bucket@, region: self.region@ }
    }
}

/// An invocation that passed every check and may reach the storage service.
#[derive(Debug, PartialEq, Eq)]
pub struct Invocation {
    pub config: ClientConfig,
    /// The region that the storage client resolved the name to.
    pub region: Region,
    pub command: Command,
}

/// Mathematical value of an [`Invocation`].
pub struct InvocationView {
    pub config: ClientConfigView,
    pub region: Region,
    pub command: CommandView,
}

impl View for Invocation {
    type V = InvocationView;

    open spec fn view(&self) -> InvocationView {
        InvocationView { config: self.config@, region: self.region, command: self.command@ }
    }
}

/// The page size in force: the one given, else the default.
pub open spec fn page_size(max_items: Option<i64>) -> i64 {
    match max_items {
        Some(n) => n,
        None => DEFAULT_MAX_ITEMS,
    }
}

/// The operation that the flags select. Exactly one of a file pattern and
/// list mode must be given: upload with a pattern alone, list with list mode
/// alone, and an error with both or neither.
pub open spec fn selected_command(
    file_pattern: Option<Seq<char>>,
    list_images: bool,
    max_items: Option<i64>,
    continuation_token: Option<Seq<char>>,
) -> Result<CommandView, UsageErrorView> {
    match file_pattern {
        Some(pattern) => if list_images {
            Err(UsageErrorView::ConflictingOperations)
        } else {
            Ok(CommandView::Upload { pattern })
        },
        None => if list_images {
            Ok(CommandView::List { max_items: page_size(max_items), continuation_token })
        } else {
            Err(UsageErrorView::MissingOperation)
        },
    }
}

/// The outcome of judging `args` when the storage client resolves their
/// region name to `region`: the operation is settled first, the region second.
pub open spec fn validated(args: ArgumentsView, region: Option<Region>) -> Result<
    InvocationView,
    UsageErrorView,
> {
    match selected_command(
        args.file_pattern,
        args.list_images,
        args.max_items,
        args.continuation_token,
    ) {
        Err(e) => Err(e),
        Ok(command) => match region {
            None => Err(UsageErrorView::MalformedRegion(args.region)),
            Some(region) => Ok(
                InvocationView {
                    config: ClientConfigView { bucket: args.bucket, region: args.region },
                    region,
                    command,
                },
            ),
        },
    }
}

/// Whether two outcomes of a check have the same mathematical value.
pub open spec fn same_outcome<T: View, E: View>(got: Result<T, E>, want: Result<T::V, E::V>) -> bool {
    match got {
        Ok(value) => want == Ok::<T::V, E::V>(value@),
        Err(error) => want == Err::<T::V, E::V>(error@),
    }
}

/// Selects the operation of an invocation from its flags.
///
/// Fails with `MissingOperation` when neither a pattern nor list mode is
/// given and with `ConflictingOperations` when both are. The page size and
/// the cursor are kept for list mode and dropped for upload.
pub fn select_command(
    file_pattern: Option<String>,
    list_images: bool,
    max_items: Option<i64>,
    continuation_token: Option<String>,
) -> (r: Result<Command, UsageError>)
    ensures
        r is Ok <==> (file_pattern is Some) != list_images,
        same_outcome(
            r,
            selected_command(
                file_pattern.deep_view(),
                list_images,
                max_items,
                continuation_token.deep_view(),
            ),
        ),
{
    match file_pattern {
        Some(pattern) => {
            if list_images {
                Err(UsageError::ConflictingOperations)
            } else {
                Ok(Command::Upload { pattern })
            }
        },
        None => {
            if list_images {
                let max_items = match max_items {
                    Some(n) => n,
                    None => DEFAULT_MAX_ITEMS,
                };
                Ok(Command::List { max_items, continuation_token })
            } else {
                Err(UsageError::MissingOperation)
            }
        },
    }
}

/// Judges the flags of an invocation before anything is sent anywhere.
///
/// Succeeds exactly when the flags select one operation and the storage
/// client knows the region name. A wrong choice of operation is reported
/// before a wrong region name.
pub fn validate(args: Arguments) -> (r: Result<Invocation, UsageError>)
    ensures
        same_outcome(r, validated(args@, region_named(args.region@))),
{
    let Arguments { bucket, region, file_pattern, list_images, max_items, continuation_token } =
        args;
    let command = match select_command(file_pattern, list_images, max_items, continuation_token) {
        Ok(command) => command,
        Err(e) => {
            return Err(e);
        },
    };
    match parse_region(region.as_str()) {
        Ok(resolved) => Ok(
            Invocation { config: ClientConfig { bucket, region }, region: resolved, command },
        ),
        Err(e) => Err(e),
    }
}

} // verus!
