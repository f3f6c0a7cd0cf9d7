//! How the CLI updates itself after the TUI exits.

use vstd::prelude::*;

verus! {

/// Update action the CLI should perform after the TUI exits.
#[derive(Debug, Clone, Copy, PartialEq, Eq, Structural)]
pub enum UpdateAction {
    /// Update via `npm install -g @echoflux537/codex`.
    NpmGlobalLatest,
    /// Update via `pnpm add -g @echoflux537/codex`.
    PnpmGlobalLatest,
    /// Update via `bun install -g @echoflux537/codex`.
    BunGlobalLatest,
}

#[verifier::external_type_specification]
#[verifier::external_body]
pub struct ExQuoteError(shlex::QuoteError);

/// What `shlex::try_join` returns for words that contain no nul character.
pub uninterp spec fn shell_join(words: Seq<Seq<char>>) -> Seq<char>;

/// The characters of each word.
pub open spec fn words_chars(words: Seq<&str>) -> Seq<Seq<char>> {
    words.map_values(|w: &str| w@)
}

/// Relies on `shlex::try_join`: it quotes each word and joins them with single
/// spaces, and fails exactly when some word contains a nul character.
#[verifier::external_body]
fn try_join_words(words: &Vec<&str>) -> (r: Result<String, shlex::QuoteError>)
    ensures
        match r {
            Ok(s) => s@ == shell_join(words_chars(words@)),
            Err(_) => exists|i: int, j: int|
                0 <= i < words@.len() && 0 <= j < words@[i]@.len() && words@[i]@[j] == '\0',
        },
{
    shlex::try_join(words.iter().copied())
}

/// The program and arguments of each action.
pub open spec fn command_words(a: UpdateAction) -> Seq<&'static str> {
    match a {
        UpdateAction::NpmGlobalLatest => seq!["npm", "install", "-g", "@echoflux537/codex"],
        UpdateAction::PnpmGlobalLatest => seq!["pnpm", "add", "-g", "@echoflux537/codex"],
        UpdateAction::BunGlobalLatest => seq!["bun", "install", "-g", "@echoflux537/codex"],
    }
}

impl UpdateAction {
    /// Returns the program and the list of command-line arguments for invoking the update.
    pub fn command_args(self) -> (r: (&'static str, &'static [&'static str]))
        ensures
            seq![r.0] + r.1@ == command_words(self),
    {
        let r: (&'static str, &'static [&'static str]) = match self {
            UpdateAction::NpmGlobalLatest => ("npm", &["install", "-g", "@echoflux537/codex"]),
            UpdateAction::PnpmGlobalLatest => ("pnpm", &["add", "-g", "@echoflux537/codex"]),
            UpdateAction::BunGlobalLatest => ("bun", &["install", "-g", "@echoflux537/codex"]),
        };
        assert(seq![r.0] + r.1@ =~= command_words(self));
        r
    }

    /// Returns the command line for invoking the update, shell-quoted.
    pub fn command_str(self) -> (r: String)
        ensures
            r@ == shell_join(words_chars(command_words(self))),
    {
        let (command, args) = self.command_args();
        let mut words: Vec<&str> = Vec::new();
        words.push(command);
        let mut i: usize = 0;
        while i < args.len()
            invariant
                i <= args@.len(),
                words@ == seq![command] + args@.take(i as int),
            decreases args@.len() - i,
        {
            words.push(args[i]);
            assert(args@.take(i + 1) =~= args@.take(i as int).push(args@[i as int]));
            i = i + 1;
        }
        assert(args@.take(args@.len() as int) =~= args@);
        proof {
            reveal_strlit("npm");
            reveal_strlit("pnpm");
            reveal_strlit("bun");
            reveal_strlit("install");
            reveal_strlit("add");
            reveal_strlit("-g");
            reveal_strlit("@echoflux537/codex");
        }
        assert(forall|i: int, j: int| 0 <= i < words@.len() && 0 <= j < words@[i]@.len() ==> words@[i]@[j] != '\0');
        match try_join_words(&words) {
            Ok(s) => s,
            Err(_) => {
                // None of the words holds a nul character, so quoting cannot fail.
                proof {
                    assert(false);
                }
                String::new()
            },
        }
    }
}

/// The update actions to offer, given how the CLI was installed.
pub open spec fn update_actions(managed_by_npm: bool, managed_by_bun: bool, pnpm_available: bool) -> Seq<UpdateAction> {
    if managed_by_npm {
        if pnpm_available {
            seq![UpdateAction::NpmGlobalLatest, UpdateAction::PnpmGlobalLatest]
        } else {
            seq![UpdateAction::NpmGlobalLatest]
        }
    } else if managed_by_bun {
        seq![UpdateAction::BunGlobalLatest]
    } else {
        seq![UpdateAction::NpmGlobalLatest]
    }
}

/// Chooses the update actions; npm takes precedence over bun, and npm is the
/// default when no package manager is detected.
pub fn detect_update_actions(managed_by_npm: bool, managed_by_bun: bool, pnpm_available: bool) -> (r: Vec<UpdateAction>)
    ensures
        r@ == update_actions(managed_by_npm, managed_by_bun, pnpm_available),
{
    let r = if managed_by_npm {
        let mut actions = vec![UpdateAction::NpmGlobalLatest];
        if pnpm_available {
            actions.push(UpdateAction::PnpmGlobalLatest);
        }
        actions
    } else if managed_by_bun {
        vec![UpdateAction::BunGlobalLatest]
    } else {
        vec![UpdateAction::NpmGlobalLatest]
    };
    assert(r@ =~= update_actions(managed_by_npm, managed_by_bun, pnpm_available));
    r
}

} // verus!
