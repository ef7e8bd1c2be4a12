//! Discovery of the default gateway from the output of the platform's
//! network command.
//!
//! The caller runs the command that [`introspection_command`] names and
//! hands what it printed to [`gateway_from_output`].

use vstd::prelude::*;
use vstd::string::*;
use crate::ipv4::{is_ipv4, is_ipv4_text};
use crate::scan::{
    contains, eligible, find_gateway, is_gateway, lemma_gateway_unique,
    lemma_near_marker_needs_marker,
};
use crate::text::chars_of;

verus! {

/// The operating-system families whose network command is known.
#[derive(Clone, Copy, Debug, PartialEq, Eq, Structural)]
pub enum Platform {
    Windows,
    Linux,
    MacOs,
    Other,
}

/// Why no gateway address was produced.
#[derive(Clone, Copy, Debug, PartialEq, Eq, Structural)]
pub enum GatewayError {
    /// The command gave no output, or its output holds no address near a
    /// gateway marker.
    NotFound(Platform),
    /// No network command is known for the platform.
    UnsupportedPlatform,
}

/// A program and its arguments.
#[derive(Clone, Debug, PartialEq, Eq)]
pub struct CommandLine {
    pub program: &'static str,
    pub args: Vec<&'static str>,
}

/// An IPv4 address in dotted-decimal text.
#[derive(Clone, Debug, PartialEq, Eq)]
pub struct GatewayAddress {
    text: String,
}

impl View for GatewayAddress {
    type V = Seq<char>;

    closed spec fn view(&self) -> Seq<char> {
        self.text@
    }
}

impl Platform {
    /// The text that marks the gateway in the command's output.
    pub open spec fn marker_spec(self) -> Option<Seq<char>> {
        match self {
            Platform::Windows => Some("Default Gateway"@),
            Platform::Linux => Some("via"@),
            Platform::MacOs => Some("gateway:"@),
            Platform::Other => None,
        }
    }

    /// The program that prints the network configuration.
    pub open spec fn program_spec(self) -> Option<Seq<char>> {
        match self {
            Platform::Windows => Some("ipconfig"@),
            Platform::Linux => Some("ip"@),
            Platform::MacOs => Some("route"@),
            Platform::Other => None,
        }
    }

    /// The arguments given to that program.
    pub open spec fn args_spec(self) -> Seq<Seq<char>> {
        match self {
            Platform::Windows => seq![],
            Platform::Linux => seq!["route"@, "show"@, "default"@],
            Platform::MacOs => seq!["-n"@, "get"@, "default"@],
            Platform::Other => seq![],
        }
    }

    /// The platform that an operating-system name stands for.
    pub open spec fn named(name: Seq<char>) -> Platform {
        if name == "windows"@ {
            Platform::Windows
        } else if name == "linux"@ {
            Platform::Linux
        } else if name == "macos"@ {
            Platform::MacOs
        } else {
            Platform::Other
        }
    }

    /// The text that marks the gateway in the command's output, where a
    /// command is known.
    pub fn marker(self) -> (r: Option<&'static str>)
        ensures
            match self.marker_spec() {
                Some(m) => r matches Some(s) && s@ == m,
                None => r is None,
            },
    {
        match self {
            Platform::Windows => Some("Default Gateway"),
            Platform::Linux => Some("via"),
            Platform::MacOs => Some("gateway:"),
            Platform::Other => None,
        }
    }

    /// The platform for an operating-system name as the standard library
    /// spells it; any other name gives `Other`.
    pub fn from_os_name(name: &str) -> (r: Platform)
        ensures
            r == Platform::named(name@),
    {
        let given = chars_of(name);
        if same_text(&given, "windows") {
            Platform::Windows
        } else if same_text(&given, "linux") {
            Platform::Linux
        } else if same_text(&given, "macos") {
            Platform::MacOs
        } else {
            Platform::Other
        }
    }
}

/// Whether `given` holds exactly the characters of `word`.
pub fn same_text(given: &Vec<char>, word: &str) -> (r: bool)
    ensures
        r == (given@ == word@),
{
    let other = chars_of(word);
    if given.len() != other.len() {
        return false;
    }
    let mut i: usize = 0;
    while i < given.len()
        invariant
            i <= given.len(),
            given.len() == other.len(),
            other@ == word@,
            forall|j: int| 0 <= j < i ==> given@[j] == other@[j],
        decreases given.len() - i,
    {
        if given[i] != other[i] {
            return false;
        }
        i = i + 1;
    }
    assert(given@ =~= other@);
    true
}

impl GatewayError {
    /// What the error says to a reader.
    pub open spec fn message_spec(self) -> Seq<char> {
        match self {
            GatewayError::NotFound(Platform::Windows) => "no default gateway in the output of ipconfig"@,
            GatewayError::NotFound(Platform::Linux) => "no default gateway in the output of ip route"@,
            GatewayError::NotFound(Platform::MacOs) => "no default gateway in the output of route"@,
            GatewayError::NotFound(Platform::Other) => "no default gateway found"@,
            GatewayError::UnsupportedPlatform => "gateway discovery is not supported on this platform"@,
        }
    }

    /// What the error says to a reader: which command's output held no
    /// gateway, or that the platform has no such command.
    pub fn message(&self) -> (r: String)
        ensures
            r@ == self.message_spec(),
    {
        match self {
            GatewayError::NotFound(Platform::Windows) => String::from_str(
                "no default gateway in the output of ipconfig",
            ),
            GatewayError::NotFound(Platform::Linux) => String::from_str(
                "no default gateway in the output of ip route",
            ),
            GatewayError::NotFound(Platform::MacOs) => String::from_str(
                "no default gateway in the output of route",
            ),
            GatewayError::NotFound(Platform::Other) => String::from_str("no default gateway found"),
            GatewayError::UnsupportedPlatform => String::from_str(
                "gateway discovery is not supported on this platform",
            ),
        }
    }
}

impl GatewayAddress {
    /// The text is a dotted-decimal IPv4 address.
    pub open spec fn wf(&self) -> bool {
        is_ipv4(self@)
    }

    /// The address, if `text` is one and nothing else.
    pub fn parse(text: &str) -> (r: Option<GatewayAddress>)
        ensures
            match r {
                Some(g) => g@ == text@ && g.wf(),
                None => !is_ipv4(text@),
            },
    {
        let chars = chars_of(text);
        if is_ipv4_text(chars.as_slice()) {
            Some(GatewayAddress { text: String::from_str(text) })
        } else {
            None
        }
    }

    /// The address as text.
    pub fn as_str(&self) -> (r: &str)
        ensures
            r@ == self@,
    {
        self.text.as_str()
    }
}

/// The address that the output names: the first token that reads as an IPv4
/// address on a line that holds the marker, or on the line right after one.
pub open spec fn gateway_of(text: Seq<char>, marker: Seq<char>) -> Option<Seq<char>> {
    if exists|a: int, b: int| is_gateway(text, marker, a, b) {
        let (a, b) = choose|a: int, b: int| is_gateway(text, marker, a, b);
        Some(text.subrange(a, b))
    } else {
        None
    }
}

/// What discovery yields on a platform, given what its command printed
/// (`None` where the command gave nothing).
pub open spec fn discovery_result(platform: Platform, output: Option<Seq<char>>) -> Result<
    Seq<char>,
    GatewayError,
> {
    match platform.marker_spec() {
        None => Err(GatewayError::UnsupportedPlatform),
        Some(m) => match output {
            None => Err(GatewayError::NotFound(platform)),
            Some(t) => match gateway_of(t, m) {
                Some(addr) => Ok(addr),
                None => Err(GatewayError::NotFound(platform)),
            },
        },
    }
}

/// The command whose output names the default gateway on `platform`.
pub fn introspection_command(platform: Platform) -> (r: Result<CommandLine, GatewayError>)
    ensures
        match platform.program_spec() {
            Some(p) => r matches Ok(c) && c.program@ == p && c.args@.len()
                == platform.args_spec().len() && forall|i: int|
                0 <= i < c.args@.len() ==> (#[trigger] c.args@[i])@ == platform.args_spec()[i],
            None => r == Err::<CommandLine, GatewayError>(GatewayError::UnsupportedPlatform),
        },
{
    match platform {
        Platform::Windows => Ok(CommandLine { program: "ipconfig", args: Vec::new() }),
        Platform::Linux => {
            let mut args: Vec<&'static str> = Vec::new();
            args.push("route");
            args.push("show");
            args.push("default");
            Ok(CommandLine { program: "ip", args })
        },
        Platform::MacOs => {
            let mut args: Vec<&'static str> = Vec::new();
            args.push("-n");
            args.push("get");
            args.push("default");
            Ok(CommandLine { program: "route", args })
        },
        Platform::Other => Err(GatewayError::UnsupportedPlatform),
    }
}

/// The gateway address in `output`, searched near `marker`.
pub fn parse_gateway(output: &str, marker: &str) -> (r: Option<GatewayAddress>)
    ensures
        match gateway_of(output@, marker@) {
            Some(addr) => r matches Some(g) && g@ == addr && g.wf(),
            None => r is None,
        },
{
    let text = chars_of(output);
    let mark = chars_of(marker);
    match find_gateway(text.as_slice(), mark.as_slice()) {
        Some((a, b)) => {
            proof {
                let (a2, b2) = choose|a2: int, b2: int| is_gateway(output@, marker@, a2, b2);
                lemma_gateway_unique(output@, marker@, a as int, b as int, a2, b2);
            }
            let token = output.substring_char(a, b);
            Some(GatewayAddress { text: String::from_str(token) })
        },
        None => None,
    }
}

/// The gateway address on `platform`, from what its command printed.
///
/// Fails with `UnsupportedPlatform` where no command is known, and with
/// `NotFound` where the command gave nothing or its output names no gateway.
pub fn gateway_from_output(platform: Platform, output: Option<&str>) -> (r: Result<
    GatewayAddress,
    GatewayError,
>)
    ensures
        match discovery_result(
            platform,
            match output {
                Some(t) => Some(t@),
                None => None,
            },
        ) {
            Ok(addr) => r matches Ok(g) && g@ == addr && g.wf(),
            Err(e) => r matches Err(x) && x == e,
        },
{
    match platform.marker() {
        None => Err(GatewayError::UnsupportedPlatform),
        Some(marker) => match output {
            None => Err(GatewayError::NotFound(platform)),
            Some(text) => match parse_gateway(text, marker) {
                Some(g) => Ok(g),
                None => Err(GatewayError::NotFound(platform)),
            },
        },
    }
}

/// An output that nowhere holds the marker names no gateway.
pub proof fn lemma_no_marker_no_gateway(text: Seq<char>, marker: Seq<char>)
    requires
        !contains(text, marker),
    ensures
        gateway_of(text, marker) is None,
{
    assert forall|a: int, b: int| !is_gateway(text, marker, a, b) by {
        if eligible(text, marker, a, b) {
            lemma_near_marker_needs_marker(text, marker, a);
        }
    }
}

/// On a platform with a known command, an output without that platform's
/// marker is reported as `NotFound`.
pub proof fn lemma_no_marker_is_not_found(platform: Platform, text: Seq<char>)
    requires
        platform.marker_spec() matches Some(m) && !contains(text, m),
    ensures
        discovery_result(platform, Some(text)) == Err::<Seq<char>, GatewayError>(
            GatewayError::NotFound(platform),
        ),
{
    lemma_no_marker_no_gateway(text, platform.marker_spec()->0);
}

/// Whatever discovery yields is an IPv4 address that stands in the output as
/// a token near the platform's marker.
pub proof fn lemma_gateway_is_address_near_marker(text: Seq<char>, marker: Seq<char>)
    requires
        gateway_of(text, marker) is Some,
    ensures
        is_ipv4(gateway_of(text, marker)->0),
        exists|a: int, b: int|
            is_gateway(text, marker, a, b) && gateway_of(text, marker)->0 == text.subrange(a, b),
{
    let (a, b) = choose|a: int, b: int| is_gateway(text, marker, a, b);
    assert(is_gateway(text, marker, a, b) && gateway_of(text, marker)->0 == text.subrange(a, b));
}

} // verus!
