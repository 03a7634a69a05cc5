//! The command line of the endpoint.

use crate::number::{parse_unsigned, unsigned_number};
use crate::text::{joined, same_text};
use vstd::prelude::*;
use vstd::string::*;

verus! {

/// What the command line asks for.
#[derive(Debug, PartialEq)]
pub struct Cli {
    pub config_path: Option<String>,
    pub database_path: Option<String>,
    pub listen_addr: Option<String>,
    pub snapshot_every: Option<u64>,
}

/// The content of a [`Cli`].
pub struct CliView {
    pub config_path: Option<Seq<char>>,
    pub database_path: Option<Seq<char>>,
    pub listen_addr: Option<Seq<char>>,
    pub snapshot_every: Option<u64>,
}

impl DeepView for Cli {
    type V = CliView;

    open spec fn deep_view(&self) -> CliView {
        CliView {
            config_path: self.config_path.deep_view(),
            database_path: self.database_path.deep_view(),
            listen_addr: self.listen_addr.deep_view(),
            snapshot_every: self.snapshot_every,
        }
    }
}

/// An option of the command line.
pub enum Flag {
    Config,
    Database,
    Listen,
    SnapshotEvery,
    Help,
}

/// The option that an argument names.
pub open spec fn flag_of(argument: Seq<char>) -> Option<Flag> {
    if argument == "--config"@ {
        Some(Flag::Config)
    } else if argument == "--database"@ || argument == "--db"@ {
        Some(Flag::Database)
    } else if argument == "--listen"@ {
        Some(Flag::Listen)
    } else if argument == "--snapshot-every"@ {
        Some(Flag::SnapshotEvery)
    } else if argument == "--help"@ || argument == "-h"@ {
        Some(Flag::Help)
    } else {
        None
    }
}

/// How the endpoint is called.
pub open spec fn usage() -> Seq<char> {
    "usage: zode [--config JSON] [--database PATH] [--listen ADDR] [--snapshot-every N]"@
}

/// The value of an option that may be given once; `repeated` and `missing` tell what else can be.
pub open spec fn once(
    known: bool,
    value: Option<Seq<char>>,
    repeated: Seq<char>,
    missing: Seq<char>,
) -> Result<Seq<char>, Seq<char>> {
    if known {
        Err(repeated)
    } else {
        match value {
            Some(value) => Ok(value),
            None => Err(missing),
        }
    }
}

/// What the command line asks for after an option and its value.
pub open spec fn with_option(
    cli: CliView,
    argument: Seq<char>,
    value: Option<Seq<char>>,
) -> Result<CliView, Seq<char>> {
    match flag_of(argument) {
        None => Err("unknown argument: "@ + argument),
        Some(Flag::Help) => Err(usage()),
        Some(Flag::Config) => match once(
            cli.config_path is Some,
            value,
            "--config may only be supplied once"@,
            "--config requires a JSON path"@,
        ) {
            Ok(value) => Ok(CliView { config_path: Some(value), ..cli }),
            Err(message) => Err(message),
        },
        Some(Flag::Database) => match once(
            cli.database_path is Some,
            value,
            "--database may only be supplied once"@,
            argument + " requires a path"@,
        ) {
            Ok(value) => Ok(CliView { database_path: Some(value), ..cli }),
            Err(message) => Err(message),
        },
        Some(Flag::Listen) => match once(
            cli.listen_addr is Some,
            value,
            "--listen may only be supplied once"@,
            argument + " requires an address"@,
        ) {
            Ok(value) => Ok(CliView { listen_addr: Some(value), ..cli }),
            Err(message) => Err(message),
        },
        Some(Flag::SnapshotEvery) => match once(
            cli.snapshot_every is Some,
            value,
            "--snapshot-every may only be supplied once"@,
            argument + " requires a positive integer"@,
        ) {
            Ok(value) => match unsigned_number(value) {
                Some(number) => Ok(CliView { snapshot_every: Some(number), ..cli }),
                None => Err("invalid snapshot interval "@ + value),
            },
            Err(message) => Err(message),
        },
    }
}

/// What the arguments ask for, from a position on.
pub open spec fn read_from(cli: CliView, arguments: Seq<Seq<char>>, at: int) -> Result<
    CliView,
    Seq<char>,
>
    decreases arguments.len() - at,
{
    if at >= arguments.len() || at < 0 {
        Ok(cli)
    } else {
        let value = if at + 1 < arguments.len() {
            Some(arguments[at + 1])
        } else {
            None
        };
        match with_option(cli, arguments[at], value) {
            Ok(next) => read_from(next, arguments, at + 2),
            Err(message) => Err(message),
        }
    }
}

/// A command line that asks for nothing.
pub open spec fn empty_cli() -> CliView {
    CliView { config_path: None, database_path: None, listen_addr: None, snapshot_every: None }
}

fn read_flag(argument: &str) -> (flag: Option<Flag>)
    ensures
        flag == flag_of(argument@),
{
    if same_text(argument, "--config") {
        Some(Flag::Config)
    } else if same_text(argument, "--database") || same_text(argument, "--db") {
        Some(Flag::Database)
    } else if same_text(argument, "--listen") {
        Some(Flag::Listen)
    } else if same_text(argument, "--snapshot-every") {
        Some(Flag::SnapshotEvery)
    } else if same_text(argument, "--help") || same_text(argument, "-h") {
        Some(Flag::Help)
    } else {
        None
    }
}

fn take_value(known: bool, value: Option<&String>, repeated: &str, missing: String) -> (result:
    Result<String, String>)
    ensures
        match result {
            Ok(taken) => once(known, value.deep_view(), repeated@, missing@) == Ok::<
                Seq<char>,
                Seq<char>,
            >(taken@),
            Err(message) => once(known, value.deep_view(), repeated@, missing@) == Err::<
                Seq<char>,
                Seq<char>,
            >(message@),
        },
{
    if known {
        return Err(repeated.to_string());
    }
    match value {
        Some(value) => Ok(value.clone()),
        None => Err(missing),
    }
}

impl Cli {
    fn set_option(self, argument: &String, value: Option<&String>) -> (result: Result<Self, String>)
        ensures
            match result {
                Ok(next) => with_option(self.deep_view(), argument@, value.deep_view()) == Ok::<
                    CliView,
                    Seq<char>,
                >(next.deep_view()),
                Err(message) => with_option(self.deep_view(), argument@, value.deep_view())
                    == Err::<CliView, Seq<char>>(message@),
            },
    {
        let mut cli = self;
        match read_flag(argument) {
            None => {
                return Err(joined("unknown argument: ", argument));
            },
            Some(Flag::Help) => {
                return Err(
                    "usage: zode [--config JSON] [--database PATH] [--listen ADDR] [--snapshot-every N]".to_string(),
                );
            },
            Some(Flag::Config) => {
                cli.config_path = Some(
                    take_value(
                        cli.config_path.is_some(),
                        value,
                        "--config may only be supplied once",
                        "--config requires a JSON path".to_string(),
                    )?,
                );
            },
            Some(Flag::Database) => {
                cli.database_path = Some(
                    take_value(
                        cli.database_path.is_some(),
                        value,
                        "--database may only be supplied once",
                        joined(argument, " requires a path"),
                    )?,
                );
            },
            Some(Flag::Listen) => {
                cli.listen_addr = Some(
                    take_value(
                        cli.listen_addr.is_some(),
                        value,
                        "--listen may only be supplied once",
                        joined(argument, " requires an address"),
                    )?,
                );
            },
            Some(Flag::SnapshotEvery) => {
                let text = take_value(
                    cli.snapshot_every.is_some(),
                    value,
                    "--snapshot-every may only be supplied once",
                    joined(argument, " requires a positive integer"),
                )?;
                match parse_unsigned(&text) {
                    Some(number) => {
                        cli.snapshot_every = Some(number);
                    },
                    None => {
                        return Err(joined("invalid snapshot interval ", &text));
                    },
                }
            },
        }
        Ok(cli)
    }

    /// Reads the arguments, without the name of the program.
    pub fn parse(arguments: &Vec<String>) -> (result: Result<Self, String>)
        ensures
            match result {
                Ok(cli) => read_from(empty_cli(), arguments.deep_view(), 0) == Ok::<
                    CliView,
                    Seq<char>,
                >(cli.deep_view()),
                Err(message) => read_from(empty_cli(), arguments.deep_view(), 0) == Err::<
                    CliView,
                    Seq<char>,
                >(message@),
            },
    {
        let ghost view = arguments.deep_view();
        let mut cli = Cli {
            config_path: None,
            database_path: None,
            listen_addr: None,
            snapshot_every: None,
        };
        let mut at: usize = 0;
        while at < arguments.len()
            invariant
                view == arguments.deep_view(),
                read_from(cli.deep_view(), view, at as int) == read_from(empty_cli(), view, 0),
            decreases arguments.len() - at,
        {
            let value = if arguments.len() - at > 1 {
                Some(&arguments[at + 1])
            } else {
                None
            };
            cli = cli.set_option(&arguments[at], value)?;
            if arguments.len() - at <= 2 {
                assert(read_from(cli.deep_view(), view, at + 2) == Ok::<CliView, Seq<char>>(
                    cli.deep_view(),
                ));
                return Ok(cli);
            }
            at += 2;
        }
        Ok(cli)
    }
}

} // verus!
