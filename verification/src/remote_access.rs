//! Where this server listens.
//!
//! On this machine only, unless the developer turned a switch on. A file that
//! cannot be understood leaves the server on this machine, so that a typo costs a
//! connection and opens nothing.

use crate::text;
use crate::web;
use vstd::prelude::*;
use vstd::utf8;

verus! {

/// Text as the contracts see it.
pub type Text = Seq<char>;

/// The file, in the preferences directory.
pub const FILE: &'static str = "remote-access.json";

/// Where this server listens.
#[derive(Debug, Clone, Copy, PartialEq, Eq, Structural)]
pub enum Exposure {
    /// On the loopback address. What every machine gets until the switch is turned
    /// on.
    LocalOnly,
    /// On every interface.
    NetworkAccessible,
}

impl Exposure {
    /// The word for it.
    pub open spec fn word(self) -> Text {
        match self {
            Exposure::LocalOnly => "local-only"@,
            Exposure::NetworkAccessible => "network-accessible"@,
        }
    }

    /// What a word means.
    pub open spec fn reading(mode: Text) -> Option<Exposure> {
        if mode == "local-only"@ {
            Some(Exposure::LocalOnly)
        } else if mode == "network-accessible"@ {
            Some(Exposure::NetworkAccessible)
        } else {
            None
        }
    }

    /// The word for it.
    pub fn mode(self) -> (out: &'static str)
        ensures
            out@ == self.word(),
    {
        match self {
            Exposure::LocalOnly => "local-only",
            Exposure::NetworkAccessible => "network-accessible",
        }
    }

    /// What a word means.
    fn from_mode(mode: &str) -> (out: Option<Exposure>)
        ensures
            out == Exposure::reading(mode@),
    {
        if text::same(mode, "local-only") {
            Some(Exposure::LocalOnly)
        } else if text::same(mode, "network-accessible") {
            Some(Exposure::NetworkAccessible)
        } else {
            None
        }
    }

    /// Whether anything but this machine can reach the server.
    pub fn is_network_accessible(self) -> (out: bool)
        ensures
            out == (self == Exposure::NetworkAccessible),
    {
        matches!(self, Exposure::NetworkAccessible)
    }
}

/// Every mode is read back from its word.
pub proof fn every_mode_reads_back(exposure: Exposure)
    ensures
        Exposure::reading(exposure.word()) == Some(exposure),
{
    reveal_strlit("local-only");
    reveal_strlit("network-accessible");
    assert("local-only"@.len() == 10);
    assert("network-accessible"@.len() == 18);
}

/// Whether an IPv4 address, once bound, is one that something other than this
/// machine can reach.
pub open spec fn remotely_reachable(host: [u8; 4]) -> bool {
    (host@ =~= seq![0u8, 0, 0, 0]) || host@[0] != 127
}

/// Whether an IPv4 address, once bound, is one that something other than this
/// machine can reach: the unspecified one is, and a loopback one is not.
pub fn is_remote_reachable_host(host: [u8; 4]) -> (out: bool)
    ensures
        out == remotely_reachable(host),
{
    if host[0] == 0 && host[1] == 0 && host[2] == 0 && host[3] == 0 {
        return true;
    }
    host[0] != 127
}

/// Who may reach this server, and from where.
#[derive(Debug, Clone, Copy, PartialEq, Eq, Structural)]
pub struct RemoteAccess {
    pub exposure: Exposure,
}

/// The text that a document holds under a field, where it holds one.
pub open spec fn text_of(found: Result<Option<(Option<Text>, Text)>, Text>) -> Option<Text> {
    match found {
        Ok(Some((Some(named), _))) => Some(named),
        _ => None,
    }
}

/// The JSON document of one text field, written out over several lines.
pub uninterp spec fn document_of(field: Seq<char>, value: Seq<char>) -> Seq<char>;

/// `serde_json::to_string_pretty` of an object with one text field. Claimed: the
/// document depends on the two texts alone, and reading that field of it gives the
/// text back. It is claimed of `mode` alone: there is a name that `serde_json`
/// keeps for itself, and an object under that one is not read back as an object.
#[verifier::external_body]
fn write_document(field: &str, value: &str) -> (out: String)
    requires
        field@ == "mode"@,
    ensures
        out@ == document_of(field@, value@),
        text_of(web::document_value(utf8::encode_utf8(out@), field@)) == Some(value@),
{
    let mut object = serde_json::Map::new();
    object.insert(field.to_owned(), serde_json::Value::String(value.to_owned()));
    serde_json::to_string_pretty(&object).expect("an object of one text")
}

/// What the field of the file that says where to listen means, and what is wrong
/// with it.
pub open spec fn mode_in(found: Result<Option<(Option<Text>, Text)>, Text>) -> (Exposure, Option<Text>) {
    match found {
        Err(why) => (Exposure::LocalOnly, Some("it is not valid JSON: "@ + why + "."@)),
        Ok(None) => (Exposure::LocalOnly, None),
        Ok(Some((named, shown))) => match named {
            Some(mode) if Exposure::reading(mode) is Some => (Exposure::reading(mode)->Some_0, None),
            _ => (
                Exposure::LocalOnly,
                Some(
                    "`mode` is "@ + shown
                        + ", which is neither `local-only` nor `network-accessible`; staying on this machine."@,
                ),
            ),
        },
    }
}

/// What the field of the file that says where to listen means, and what is wrong
/// with it. A file without it is from before the switch, and nothing is wrong with
/// one.
pub fn mode_of(found: &Result<Option<(Option<String>, String)>, String>) -> (out: (Exposure, Option<String>))
    ensures
        (out.0, text::maybe(out.1)) == mode_in(web::value_view(*found)),
{
    match found {
        Err(why) => (Exposure::LocalOnly, Some(text::glue3("it is not valid JSON: ", why, "."))),
        Ok(None) => (Exposure::LocalOnly, None),
        Ok(Some((named, shown))) => {
            if let Some(mode) = named {
                if let Some(exposure) = Exposure::from_mode(mode) {
                    return (exposure, None);
                }
            }
            (
                Exposure::LocalOnly,
                Some(
                    text::glue3(
                        "`mode` is ",
                        shown,
                        ", which is neither `local-only` nor `network-accessible`; staying on this machine.",
                    ),
                ),
            )
        },
    }
}

/// What came of reading the file.
#[derive(Debug, PartialEq, Eq)]
pub enum FileRead<S> {
    /// Nothing was written, which is every machine that never turned the switch
    /// on.
    Missing,
    /// It could not be read.
    Failed(S),
    Text(S),
}

impl View for FileRead<String> {
    type V = FileRead<Text>;

    open spec fn view(&self) -> FileRead<Text> {
        match self {
            FileRead::Missing => FileRead::Missing,
            FileRead::Failed(why) => FileRead::Failed(why@),
            FileRead::Text(raw) => FileRead::Text(raw@),
        }
    }
}

/// Where the server listens after reading the file, and what is wrong with it.
pub open spec fn loaded(read: FileRead<Text>) -> (Exposure, Option<Text>) {
    match read {
        FileRead::Missing => (Exposure::LocalOnly, None),
        FileRead::Failed(why) => (Exposure::LocalOnly, Some("it could not be read: "@ + why + "."@)),
        FileRead::Text(raw) => mode_in(web::document_value(utf8::encode_utf8(raw), "mode"@)),
    }
}

impl RemoteAccess {
    /// This machine only.
    pub fn none() -> (out: RemoteAccess)
        ensures
            out.exposure == Exposure::LocalOnly,
    {
        RemoteAccess { exposure: Exposure::LocalOnly }
    }

    /// Where this server listens.
    pub fn exposure(&self) -> (out: Exposure)
        ensures
            out == self.exposure,
    {
        self.exposure
    }

    /// The address to bind.
    pub open spec fn address(self) -> Seq<u8> {
        match self.exposure {
            Exposure::LocalOnly => seq![127, 0, 0, 1],
            Exposure::NetworkAccessible => seq![0, 0, 0, 0],
        }
    }

    /// The address to bind.
    pub fn bind_address(&self) -> (out: [u8; 4])
        ensures
            out@ == self.address(),
    {
        match self.exposure {
            Exposure::LocalOnly => [127, 0, 0, 1],
            Exposure::NetworkAccessible => [0, 0, 0, 0],
        }
    }

    /// The same with another mode: what the switch writes.
    pub fn with_exposure(&self, exposure: Exposure) -> (out: RemoteAccess)
        ensures
            out.exposure == exposure,
    {
        RemoteAccess { exposure }
    }

    /// The text of the file.
    pub fn save(&self) -> (out: String)
        ensures
            out@ == document_of("mode"@, self.exposure.word()),
            loaded(FileRead::Text(out@)) == (self.exposure, None::<Text>),
    {
        proof {
            every_mode_reads_back(self.exposure);
        }
        write_document("mode", self.exposure.mode())
    }

    /// Where the server listens after reading the file, and what is wrong with the
    /// file. What is wrong is for a log: the server listens on this machine then.
    pub fn load(read: &FileRead<String>) -> (out: (RemoteAccess, Option<String>))
        ensures
            (out.0.exposure, text::maybe(out.1)) == loaded(read@),
    {
        match read {
            FileRead::Missing => (RemoteAccess::none(), None),
            FileRead::Failed(why) => (RemoteAccess::none(), Some(text::glue3("it could not be read: ", why, "."))),
            FileRead::Text(raw) => {
                let (exposure, wrong) = mode_of(&web::read_document(raw.as_str().as_bytes(), "mode"));
                (RemoteAccess { exposure }, wrong)
            },
        }
    }
}

/// The switch decides what the policy reports: the address that is bound is one
/// that others can reach exactly where the server is accessible from the network.
pub proof fn the_switch_decides_who_can_reach(access: RemoteAccess, address: [u8; 4])
    requires
        address@ == access.address(),
    ensures
        remotely_reachable(address) == (access.exposure == Exposure::NetworkAccessible),
{
}

/// A file that is not understood admits nobody: wherever something is wrong with
/// it, the server listens on this machine only.
pub proof fn what_is_wrong_stays_on_this_machine(read: FileRead<Text>)
    ensures
        loaded(read).1 is Some ==> loaded(read).0 == Exposure::LocalOnly,
{
}

/// Access is local or by the network, by its own word, and listens accordingly.
pub proof fn access_goes_by_its_word(access: RemoteAccess, mode: Text, host: [u8; 4])
    ensures
        Exposure::LocalOnly.word() == "local-only"@,
        Exposure::NetworkAccessible.word() == "network-accessible"@,
        Exposure::reading(mode) matches Some(exposure) ==> exposure.word() == mode,
        Exposure::reading(mode) is None ==> mode != "local-only"@ && mode != "network-accessible"@,
        access.exposure is LocalOnly ==> access.address() == seq![127u8, 0u8, 0u8, 1u8],
        access.exposure is NetworkAccessible ==> access.address() == seq![0u8, 0u8, 0u8, 0u8],
        remotely_reachable(host) <==> host@[0] != 127,
{
}

/// The file decides where it names a mode; where it is not there nothing is complained
/// of, and where it cannot be read or names nothing known, what is wrong with it is told
/// and access stays local.
pub proof fn the_file_decides_where_it_names_a_mode(raw: Text, why: Text, shown: Text, named: Text)
    ensures
        loaded(FileRead::Missing) == (Exposure::LocalOnly, None::<Text>),
        loaded(FileRead::Failed(why)) == (Exposure::LocalOnly, Some("it could not be read: "@ + why + "."@)),
        loaded(FileRead::Text(raw)) == mode_in(web::document_value(utf8::encode_utf8(raw), "mode"@)),
        mode_in(Err(why)) == (Exposure::LocalOnly, Some("it is not valid JSON: "@ + why + "."@)),
        mode_in(Ok(None)) == (Exposure::LocalOnly, None::<Text>),
        mode_in(Ok(Some((Some("local-only"@), shown)))) == (Exposure::LocalOnly, None::<Text>),
        mode_in(Ok(Some((Some("network-accessible"@), shown)))) == (Exposure::NetworkAccessible, None::<Text>),
        named != "local-only"@ && named != "network-accessible"@ ==> mode_in(Ok(Some((Some(named), shown)))) == (
            Exposure::LocalOnly,
            Some(
                "`mode` is "@ + shown
                    + ", which is neither `local-only` nor `network-accessible`; staying on this machine."@,
            ),
        ),
        mode_in(Ok(Some((None, shown)))).0 is LocalOnly && mode_in(Ok(Some((None, shown)))).1 is Some,
{
    every_mode_reads_back(Exposure::LocalOnly);
    every_mode_reads_back(Exposure::NetworkAccessible);
}

} // verus!
