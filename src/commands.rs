//! The commands the kiosk serves to its user interface, and the state they
//! share once startup has succeeded.

use vstd::prelude::*;
use vstd::string::StringExecFns;
use crate::config::{first_missing, present, ConfigError, RemoteConfig};

verus! {

/// The five commands of the user interface.
#[derive(PartialEq, Eq, Structural, Clone, Copy, Debug)]
pub enum Command {
    GetImages,
    GetMessage,
    FetchHours,
    FetchWorkers,
    AddScanRecord,
}

/// The name under which the user interface invokes a command.
pub open spec fn command_name(c: Command) -> Seq<char> {
    match c {
        Command::GetImages => "get_images"@,
        Command::GetMessage => "get_message"@,
        Command::FetchHours => "fetch_hours"@,
        Command::FetchWorkers => "fetch_workers"@,
        Command::AddScanRecord => "add_scan_record"@,
    }
}

/// Every command, in registration order.
pub open spec fn all_commands() -> Seq<Command> {
    seq![
        Command::GetImages,
        Command::GetMessage,
        Command::FetchHours,
        Command::FetchWorkers,
        Command::AddScanRecord,
    ]
}

impl Command {
    /// The name under which the user interface invokes this command.
    pub fn name(&self) -> (r: &'static str)
        ensures
            r@ == command_name(*self),
    {
        match self {
            Command::GetImages => "get_images",
            Command::GetMessage => "get_message",
            Command::FetchHours => "fetch_hours",
            Command::FetchWorkers => "fetch_workers",
            Command::AddScanRecord => "add_scan_record",
        }
    }

    /// The command invoked under `name`, if any.
    pub fn from_name(name: &str) -> (r: Option<Command>)
        ensures
            r is Some ==> command_name(r->Some_0) == name@,
            r is None ==> forall|c: Command| command_name(c) != name@,
    {
        let n = String::from_str(name);
        let mut i: usize = 0;
        let commands = registered_commands();
        while i < commands.len()
            invariant
                n@ == name@,
                commands@ == all_commands(),
                i <= commands@.len(),
                forall|j: int| 0 <= j < i ==> command_name(#[trigger] commands@[j]) != name@,
            decreases commands@.len() - i,
        {
            let c = commands[i];
            let candidate = String::from_str(c.name());
            if n == candidate {
                return Some(c);
            }
            i = i + 1;
        }
        proof {
            assert forall|c: Command| command_name(c) != name@ by {
                lemma_every_command_registered(c);
            }
        }
        None
    }
}

/// The commands that a started kiosk serves.
pub fn registered_commands() -> (r: Vec<Command>)
    ensures
        r@ == all_commands(),
{
    let r = vec![
        Command::GetImages,
        Command::GetMessage,
        Command::FetchHours,
        Command::FetchWorkers,
        Command::AddScanRecord,
    ];
    assert(r@ =~= all_commands());
    r
}

/// State shared by the commands: the Grist settings, the base directory of
/// the local assets and the commands served.
pub struct AppState {
    pub config: RemoteConfig,
    pub base_path: String,
    pub commands: Vec<Command>,
}

/// Startup from the values of the three Grist variables and the resolved
/// base directory. It fails, naming the first variable that is absent or
/// empty, before any command is served.
pub fn start(
    api_key: Option<String>,
    base_url: Option<String>,
    document_id: Option<String>,
    base_path: String,
) -> (r: Result<AppState, ConfigError>)
    ensures
        r is Ok <==> first_missing(api_key, base_url, document_id) is None,
        r is Err ==> r->Err_0.missing == first_missing(api_key, base_url, document_id)->Some_0,
        r is Ok ==> {
            let s = r->Ok_0;
            &&& s.config.wf()
            &&& Some(s.config.api_key) == api_key
            &&& Some(s.config.base_url) == base_url
            &&& Some(s.config.document_id) == document_id
            &&& s.base_path == base_path
            &&& s.commands@ == all_commands()
        },
{
    let config = RemoteConfig::from_values(api_key, base_url, document_id)?;
    Ok(AppState { config, base_path, commands: registered_commands() })
}

/// Every command is registered, exactly once.
pub proof fn lemma_every_command_registered(c: Command)
    ensures
        all_commands().contains(c),
        all_commands().len() == 5,
        forall|i: int, j: int|
            0 <= i < j < 5 ==> all_commands()[i] != all_commands()[j],
{
    match c {
        Command::GetImages => assert(all_commands()[0] == c),
        Command::GetMessage => assert(all_commands()[1] == c),
        Command::FetchHours => assert(all_commands()[2] == c),
        Command::FetchWorkers => assert(all_commands()[3] == c),
        Command::AddScanRecord => assert(all_commands()[4] == c),
    }
}

/// Startup is refused exactly when one of the three Grist variables is
/// absent or empty, and a started kiosk serves every command, each under a
/// name of its own.
pub proof fn lemma_startup_serves_all_commands(
    api_key: Option<String>,
    base_url: Option<String>,
    document_id: Option<String>,
    c: Command,
    d: Command,
)
    ensures
        first_missing(api_key, base_url, document_id) is None <==> present(api_key) && present(
            base_url,
        ) && present(document_id),
        all_commands().contains(c),
        c != d ==> command_name(c) != command_name(d),
{
    lemma_every_command_registered(c);
    lemma_name_signature(c);
    lemma_name_signature(d);
}

/// Each name is told apart from the others by its length and first letter.
proof fn lemma_name_signature(c: Command)
    ensures
        command_name(c).len() > 0,
        command_name(c).len() == match c {
            Command::GetImages => 10int,
            Command::GetMessage => 11,
            Command::FetchHours => 11,
            Command::FetchWorkers => 13,
            Command::AddScanRecord => 15,
        },
        command_name(c)[0] == match c {
            Command::GetImages => 'g',
            Command::GetMessage => 'g',
            Command::FetchHours => 'f',
            Command::FetchWorkers => 'f',
            Command::AddScanRecord => 'a',
        },
{
    reveal_strlit("get_images");
    reveal_strlit("get_message");
    reveal_strlit("fetch_hours");
    reveal_strlit("fetch_workers");
    reveal_strlit("add_scan_record");
}

} // verus!
