//! Installing the editor's server into the configuration of an assistant:
//! which assistant is meant, what is found in its configuration, and what
//! the user is told.

use vstd::prelude::*;
use vstd::string::StringExecFns;

use crate::text::chars_of;

verus! {

/// An assistant and where it keeps its configuration.
#[derive(Debug)]
pub struct ProviderConfig {
    /// The name under which the assistant is shown.
    pub name: String,
    /// The name by which the assistant is asked for.
    pub id: String,
    /// Its configuration file, relative to the home directory.
    pub relative_path: String,
}

impl Clone for ProviderConfig {
    fn clone(&self) -> (r: Self)
        ensures
            r.name@ == self.name@,
            r.id@ == self.id@,
            r.relative_path@ == self.relative_path@,
    {
        ProviderConfig {
            name: self.name.clone(),
            id: self.id.clone(),
            relative_path: self.relative_path.clone(),
        }
    }
}

/// The position of the first provider that goes by `id`.
pub open spec fn provider_position(providers: Seq<ProviderConfig>, id: Seq<char>, k: int) -> bool {
    &&& 0 <= k < providers.len()
    &&& providers[k].id@ == id
    &&& forall|j: int| 0 <= j < k ==> (#[trigger] providers[j]).id@ != id
}

/// Finds among the known providers the one that goes by a name. A name
/// that no provider goes by is answered with a message.
pub fn get_provider_config(providers: &Vec<ProviderConfig>, provider: &str) -> (r: Result<
    ProviderConfig,
    String,
>)
    ensures
        match r {
            Ok(config) => exists|k: int|
                {
                    &&& provider_position(providers@, provider@, k)
                    &&& config.name@ == providers@[k].name@
                    &&& config.id@ == provider@
                    &&& config.relative_path@ == providers@[k].relative_path@
                },
            Err(message) => {
                &&& message@ == "Unknown provider: "@ + provider@
                &&& forall|j: int| 0 <= j < providers.len() ==> (#[trigger] providers@[j]).id@
                    != provider@
            },
        },
{
    let wanted = provider.to_owned();
    let mut i: usize = 0;
    while i < providers.len()
        invariant
            i <= providers.len(),
            wanted@ == provider@,
            forall|j: int| 0 <= j < i ==> (#[trigger] providers@[j]).id@ != provider@,
        decreases providers.len() - i,
    {
        if providers[i].id == wanted {
            assert(provider_position(providers@, provider@, i as int));
            return Ok(providers[i].clone());
        }
        i += 1;
    }
    let mut message = "Unknown provider: ".to_owned();
    message.append(provider);
    Err(message)
}

/// Whether a character is a decimal digit.
pub open spec fn is_digit(c: char) -> bool {
    '0' <= c <= '9'
}

/// The number that decimal digits stand for.
pub open spec fn number_of(digits: Seq<char>) -> nat
    decreases digits.len(),
{
    if digits.len() == 0 {
        0
    } else {
        number_of(digits.drop_last()) * 10 + (digits.last() as u8 - 0x30) as nat
    }
}

/// A text without the plus sign at its head, if it has one.
pub open spec fn port_digits(text: Seq<char>) -> Seq<char> {
    if text.len() > 0 && text[0] == '+' {
        text.skip(1)
    } else {
        text
    }
}

/// The port that a text stands for: decimal digits, with a plus sign
/// before them or none, that make a number of at most 16 bits.
pub open spec fn port_of(text: Seq<char>) -> Option<u16> {
    let digits = port_digits(text);
    if digits.len() > 0 && (forall|i: int| 0 <= i < digits.len() ==> is_digit(digits[i]))
        && number_of(digits) <= u16::MAX {
        Some(number_of(digits) as u16)
    } else {
        None
    }
}

/// More digits make no smaller number.
proof fn lemma_number_grows(digits: Seq<char>, k: int)
    requires
        0 <= k <= digits.len(),
    ensures
        number_of(digits.take(k)) <= number_of(digits),
    decreases digits.len() - k,
{
    if k == digits.len() {
        assert(digits.take(k) =~= digits);
    } else {
        lemma_number_grows(digits.drop_last(), k);
        assert(digits.drop_last().take(k) =~= digits.take(k));
    }
}

/// Reads a port from a text.
pub fn parse_port(text: &str) -> (r: Option<u16>)
    ensures
        r == port_of(text@),
{
    let s = chars_of(text);
    let start: usize = if s.len() > 0 && s[0] == '+' {
        1
    } else {
        0
    };
    let ghost digits = s@.skip(start as int);
    assert(digits =~= port_digits(text@));
    if start == s.len() {
        return None;
    }
    let mut value: u32 = 0;
    let mut i: usize = start;
    assert(digits.take(0) =~= Seq::empty());
    while i < s.len()
        invariant
            start <= i <= s.len(),
            start <= 1,
            s@ == text@,
            digits == s@.skip(start as int),
            digits == port_digits(text@),
            value == number_of(digits.take(i - start)),
            value <= u16::MAX,
            forall|j: int| 0 <= j < i - start ==> is_digit(#[trigger] digits[j]),
        decreases s.len() - i,
    {
        let c = s[i];
        assert(c == digits[i - start]);
        if !('0' <= c && c <= '9') {
            assert(!is_digit(digits[i - start]));
            return None;
        }
        proof {
            assert(digits.take(i - start + 1).drop_last() =~= digits.take(i - start));
            assert(digits.take(i - start + 1).last() == c);
        }
        value = value * 10 + ((c as u8 - 0x30) as u32);
        if value > 65535 {
            proof {
                if forall|j: int| 0 <= j < digits.len() ==> is_digit(digits[j]) {
                    lemma_number_grows(digits, i - start + 1);
                }
            }
            return None;
        }
        i += 1;
    }
    assert(digits.take(digits.len() as int) =~= digits);
    Some(value as u16)
}

/// The port that the arguments of an installed server name: the argument
/// after the first `--port`, where it is a text that stands for a port.
/// An argument that is no text is `None`.
pub open spec fn configured_port_of(args: Seq<Option<Seq<char>>>) -> Option<u16> {
    if exists|k: int| first_port_flag(args, k) {
        let k = choose|k: int| first_port_flag(args, k);
        if k + 1 < args.len() {
            match args[k + 1] {
                Some(text) => port_of(text),
                None => None,
            }
        } else {
            None
        }
    } else {
        None
    }
}

/// The first position at which `--port` stands among the arguments.
pub open spec fn first_port_flag(args: Seq<Option<Seq<char>>>, k: int) -> bool {
    &&& 0 <= k < args.len()
    &&& args[k] == Some("--port"@)
    &&& forall|j: int| 0 <= j < k ==> args[j] != Some("--port"@)
}

/// Finds the port that the arguments of an installed server name.
pub fn configured_port(args: &Vec<Option<String>>) -> (r: Option<u16>)
    ensures
        r == configured_port_of(args.deep_view()),
{
    let ghost views = args.deep_view();
    let flag = "--port".to_owned();
    let mut i: usize = 0;
    while i < args.len()
        invariant
            i <= args.len(),
            views == args.deep_view(),
            flag@ == "--port"@,
            forall|j: int| 0 <= j < i ==> views[j] != Some("--port"@),
        decreases args.len() - i,
    {
        let is_flag = match &args[i] {
            Some(text) => *text == flag,
            None => false,
        };
        if is_flag {
            proof {
                assert(first_port_flag(views, i as int));
                let k = choose|k: int| first_port_flag(views, k);
                if k < i {
                    assert(views[k] != Some("--port"@));
                } else if i < k {
                    assert(views[i as int] != Some("--port"@));
                }
            }
            if i + 1 < args.len() {
                return match &args[i + 1] {
                    Some(text) => parse_port(text.as_str()),
                    None => None,
                };
            }
            return None;
        }
        i += 1;
    }
    None
}

/// What is found of one assistant's configuration.
#[derive(Debug)]
pub struct ProviderStatus {
    pub provider: String,
    pub name: String,
    pub path: String,
    pub exists: bool,
    pub has_vmark: bool,
    pub configured_port: Option<u16>,
}

/// The status of a provider whose configuration lies at `path`. `found`
/// says what the file holds, whether the server is installed and under
/// which port, and is `None` where the file does not exist.
pub fn provider_status(config: &ProviderConfig, path: String, found: Option<(bool, Option<u16>)>) -> (status:
    ProviderStatus)
    ensures
        status.provider@ == config.id@,
        status.name@ == config.name@,
        status.path == path,
        status.exists == found is Some,
        status.has_vmark == match found {
            Some(f) => f.0,
            None => false,
        },
        status.configured_port == match found {
            Some(f) => f.1,
            None => None,
        },
{
    let (has_vmark, configured_port) = match found {
        Some(f) => f,
        None => (false, None),
    };
    ProviderStatus {
        provider: config.id.clone(),
        name: config.name.clone(),
        path,
        exists: found.is_some(),
        has_vmark,
        configured_port,
    }
}

/// What an installation would change, shown before it is made.
#[derive(Debug)]
pub struct ConfigPreview {
    pub provider: String,
    pub path: String,
    pub binary_path: String,
    pub is_dev: bool,
    pub current_content: Option<String>,
    pub proposed_content: String,
    pub backup_path: String,
}

/// The name of the backup of a configuration file, made at the time that
/// `timestamp` spells.
pub fn backup_file_name(file_name: &str, timestamp: &str) -> (name: String)
    ensures
        name@ == file_name@ + ".backup."@ + timestamp@,
{
    let mut name = file_name.to_owned();
    name.append(".backup.");
    name.append(timestamp);
    name
}

/// Whether what was read back from a configuration file is what was
/// written to it.
pub fn check_written(read_back: Option<&str>, written: &str) -> (r: Result<(), String>)
    ensures
        match r {
            Ok(_) => read_back.deep_view() == Some(written@),
            Err(message) => read_back.deep_view() != Some(written@) && message@
                == "Config validation failed: written content does not match"@,
        },
{
    let same = match read_back {
        Some(text) => crate::text::same_text(text, written),
        None => false,
    };
    if same {
        Ok(())
    } else {
        Err("Config validation failed: written content does not match".to_owned())
    }
}

/// How an installation ended.
#[derive(Debug)]
pub struct InstallResult {
    pub success: bool,
    pub message: String,
    pub backup_path: Option<String>,
}

impl InstallResult {
    /// The result of an installation that went well.
    pub fn installed(provider_name: &str, backup_path: Option<String>) -> (r: InstallResult)
        ensures
            r.success,
            r.message@ == "Successfully installed MCP configuration for "@ + provider_name@,
            r.backup_path == backup_path,
    {
        let mut message = "Successfully installed MCP configuration for ".to_owned();
        message.append(provider_name);
        InstallResult { success: true, message, backup_path }
    }
}

/// How the removal of an installation ended.
#[derive(Debug)]
pub struct UninstallResult {
    pub success: bool,
    pub message: String,
}

impl UninstallResult {
    /// The result where there was no configuration file.
    pub fn nothing_to_uninstall() -> (r: UninstallResult)
        ensures
            r.success,
            r.message@ == "Config file does not exist, nothing to uninstall"@,
    {
        UninstallResult {
            success: true,
            message: "Config file does not exist, nothing to uninstall".to_owned(),
        }
    }

    /// The result of a removal that went well.
    pub fn removed(provider_name: &str) -> (r: UninstallResult)
        ensures
            r.success,
            r.message@ == "Successfully removed VMark from "@ + provider_name@ + " configuration"@,
    {
        let mut message = "Successfully removed VMark from ".to_owned();
        message.append(provider_name);
        message.append(" configuration");
        UninstallResult { success: true, message }
    }
}

} // verus!
