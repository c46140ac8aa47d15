//! The Android SDK: where it is, where its tools are, and which virtual devices
//! it has.

use vstd::prelude::*;

use crate::error::EmulatorError;
use crate::text::{self, lines_of, trim_of};

verus! {

/// The port of the ADB server on the local machine.
pub const ADB_PORT: u16 = 5037;

/// The operating systems that differ in where the SDK is.
#[derive(Clone, Copy, Debug, PartialEq, Eq, Structural)]
pub enum Platform {
    Linux,
    MacOs,
    Windows,
    Other,
}

/// A directory of the user.
#[derive(Clone, Copy, Debug, PartialEq, Eq, Structural)]
pub enum BaseDir {
    /// The home directory.
    Home,
    /// The directory for local application data.
    LocalData,
}

/// The characters of each part of a path.
pub open spec fn parts(v: Seq<&'static str>) -> Seq<Seq<char>> {
    v.map_values(|s: &'static str| s@)
}

impl Platform {
    /// The directory below which the SDK is by default.
    pub open spec fn spec_base_dir(self) -> BaseDir {
        match self {
            Platform::Windows => BaseDir::LocalData,
            _ => BaseDir::Home,
        }
    }

    /// Where the SDK can be by default, as paths below the base directory, in
    /// the order in which they are tried.
    pub open spec fn spec_locations(self) -> Seq<Seq<Seq<char>>> {
        match self {
            Platform::Linux => seq![seq!["Android"@, "sdk"@], seq!["Android"@, "Sdk"@]],
            Platform::MacOs => seq![seq!["Library"@, "Android"@, "sdk"@]],
            Platform::Windows => seq![seq!["Android"@, "Sdk"@]],
            Platform::Other => seq![],
        }
    }

    /// The file name of the emulator tool.
    pub open spec fn spec_emulator_bin(self) -> Seq<char> {
        match self {
            Platform::Windows => "emulator.exe"@,
            _ => "emulator"@,
        }
    }

    /// The directory below which the SDK is by default.
    pub fn base_dir(self) -> (res: BaseDir)
        ensures
            res == self.spec_base_dir(),
    {
        match self {
            Platform::Windows => BaseDir::LocalData,
            _ => BaseDir::Home,
        }
    }

    /// Where the SDK can be by default, as paths below the base directory, in
    /// the order in which they are tried.
    pub fn locations(self) -> (res: Vec<Vec<&'static str>>)
        ensures
            res@.len() == self.spec_locations().len(),
            forall|i: int|
                0 <= i < res@.len() ==> parts((#[trigger] res@[i])@) == self.spec_locations()[i],
    {
        let res: Vec<Vec<&'static str>> = match self {
            Platform::Linux => vec![vec!["Android", "sdk"], vec!["Android", "Sdk"]],
            Platform::MacOs => vec![vec!["Library", "Android", "sdk"]],
            Platform::Windows => vec![vec!["Android", "Sdk"]],
            Platform::Other => Vec::new(),
        };
        assert forall|i: int| 0 <= i < res@.len() implies parts((#[trigger] res@[i])@)
            == self.spec_locations()[i] by {
            assert(parts(res@[i]@) =~= self.spec_locations()[i]);
        }
        res
    }

    /// Where the emulator tool is in the SDK, as the parts of a path.
    pub fn emulator_tool(self) -> (res: Vec<&'static str>)
        ensures
            parts(res@) == seq!["emulator"@, self.spec_emulator_bin()],
    {
        let bin = match self {
            Platform::Windows => "emulator.exe",
            _ => "emulator",
        };
        let res: Vec<&'static str> = vec!["emulator", bin];
        assert(parts(res@) =~= seq!["emulator"@, self.spec_emulator_bin()]);
        res
    }
}

/// Whether the emulator tool is at the path.
pub fn check_tool(exists: bool, path: String) -> (res: Result<(), EmulatorError>)
    ensures
        res == (if exists {
            Ok::<(), EmulatorError>(())
        } else {
            Err(EmulatorError::EmulatorToolNotFound(path))
        }),
{
    if exists {
        Ok(())
    } else {
        Err(EmulatorError::EmulatorToolNotFound(path))
    }
}

/// Where the ADB tool is in the SDK, as the parts of a path.
pub fn adb_tool() -> (res: Vec<&'static str>)
    ensures
        parts(res@) == seq!["platform-tools"@, "adb"@],
{
    let res: Vec<&'static str> = vec!["platform-tools", "adb"];
    assert(parts(res@) =~= seq!["platform-tools"@, "adb"@]);
    res
}

/// The path of the ADB tool, with which a server is started where none runs.
/// A path that is no text is refused.
pub fn adb_server(adb_path: Option<String>) -> (res: Result<String, EmulatorError>)
    ensures
        match adb_path {
            Some(path) => res == Ok::<String, EmulatorError>(path),
            None => res matches Err(EmulatorError::AdbError(m)) && m@
                == "Invalid Android home path"@,
        },
{
    match adb_path {
        Some(path) => Ok(path),
        None => Err(EmulatorError::AdbError("Invalid Android home path".to_owned())),
    }
}

/// Where the SDK is.
pub enum SdkHome {
    /// At the path that the environment gives.
    Given(String),
    /// At the path with these parts, below the base directory.
    Below(Vec<&'static str>),
}

/// Whether `res` is where the SDK is.
pub open spec fn finds_home(
    platform: Platform,
    android_home: Option<String>,
    android_sdk_root: Option<String>,
    exist: Option<&Vec<bool>>,
    res: Result<SdkHome, EmulatorError>,
) -> bool {
    match (android_home, android_sdk_root, exist) {
        (Some(path), _, _) => res == Ok::<SdkHome, EmulatorError>(SdkHome::Given(path)),
        (None, Some(path), _) => res == Ok::<SdkHome, EmulatorError>(SdkHome::Given(path)),
        (None, None, None) => res matches Err(EmulatorError::AndroidHomeNotFound),
        (None, None, Some(e)) => match res {
            Ok(home) => exists|i: int|
                #![trigger e@[i]]
                {
                    &&& 0 <= i < e@.len()
                    &&& e@[i]
                    &&& forall|j: int| 0 <= j < i ==> !#[trigger] e@[j]
                    &&& home matches SdkHome::Below(p) && parts(p@) == platform.spec_locations()[i]
                },
            Err(err) => err is AndroidHomeNotFound && forall|j: int|
                0 <= j < e@.len() ==> !#[trigger] e@[j],
        },
    }
}

/// Get the Android SDK home directory
///
/// It is, in this order, what the environment variable `ANDROID_HOME` gives,
/// what `ANDROID_SDK_ROOT` gives, or the first of the default locations of the
/// platform that exists. `exist` says which of them do, in their order; it is
/// `None` where there is no base directory.
pub fn get_android_home(
    platform: Platform,
    android_home: Option<String>,
    android_sdk_root: Option<String>,
    exist: Option<&Vec<bool>>,
) -> (res: Result<SdkHome, EmulatorError>)
    requires
        exist matches Some(e) ==> e@.len() == platform.spec_locations().len(),
    ensures
        finds_home(platform, android_home, android_sdk_root, exist, res),
{
    if let Some(path) = android_home {
        return Ok(SdkHome::Given(path));
    }
    if let Some(path) = android_sdk_root {
        return Ok(SdkHome::Given(path));
    }
    let found = match exist {
        Some(found) => found,
        None => return Err(EmulatorError::AndroidHomeNotFound),
    };
    let mut locations = platform.locations();
    let mut i: usize = 0;
    while i < found.len() && !found[i]
        invariant
            i <= found@.len(),
            forall|j: int| 0 <= j < i ==> !#[trigger] found@[j],
        decreases found@.len() - i,
    {
        i += 1;
    }
    if i < found.len() {
        let below = locations.remove(i);
        assert(found@[i as int]);
        Ok(SdkHome::Below(below))
    } else {
        Err(EmulatorError::AndroidHomeNotFound)
    }
}

/// The text that `String::from_utf8_lossy` makes of bytes.
pub uninterp spec fn utf8_lossy(bytes: Seq<u8>) -> Seq<char>;

/// `String::from_utf8_lossy`: bytes as text. Bytes that are valid UTF-8 are
/// decoded; what the text is where they are not is left open.
#[verifier::external_body]
fn utf8_lossy_of(bytes: &[u8]) -> (res: String)
    ensures
        res@ == utf8_lossy(bytes@),
        vstd::utf8::valid_utf8(bytes@) ==> res@ == vstd::utf8::decode_utf8(bytes@),
{
    String::from_utf8_lossy(bytes).into_owned()
}

/// The names in a listing: its lines, without white space on their sides,
/// unless nothing is left of them.
pub open spec fn avd_names(lines: Seq<Seq<char>>) -> Seq<Seq<char>>
    decreases lines.len(),
{
    if lines.len() == 0 {
        seq![]
    } else {
        let before = avd_names(lines.drop_last());
        let name = text::trim(lines.last());
        if name.len() > 0 {
            before.push(name)
        } else {
            before
        }
    }
}

/// Whether `res` has the names in a listing; that there are none is an error.
pub open spec fn lists(listing: Seq<char>, res: Result<Vec<String>, EmulatorError>) -> bool {
    let names = avd_names(text::lines(listing));
    match res {
        Ok(avds) => text::views(avds@) == names && names.len() > 0,
        Err(e) => names.len() == 0 && e is NoAvdsFound,
    }
}

/// The virtual devices in a listing.
pub fn avds_in(listing: &str) -> (res: Result<Vec<String>, EmulatorError>)
    ensures
        lists(listing@, res),
{
    let lines = lines_of(listing);
    let mut avds: Vec<String> = Vec::new();
    let ghost all = text::views(lines@);
    assert(text::views(avds@) =~= seq![]);
    for i in 0..lines.len()
        invariant
            all == text::views(lines@),
            text::views(avds@) == avd_names(all.take(i as int)),
    {
        let ghost before = text::views(avds@);
        let name = trim_of(lines[i].as_str());
        assert(all.take(i + 1).drop_last() =~= all.take(i as int));
        assert(all.take(i + 1).last() == lines@[i as int]@);
        if name.unicode_len() > 0 {
            avds.push(name.to_owned());
            assert(text::views(avds@) =~= before.push(name@));
        }
    }
    assert(all.take(all.len() as int) =~= all);
    if avds.len() == 0 {
        Err(EmulatorError::NoAvdsFound)
    } else {
        Ok(avds)
    }
}

/// Find available Android Virtual Devices (AVDs): those that the emulator tool
/// lists in its output
pub fn list_avds(stdout: &[u8]) -> (res: Result<Vec<String>, EmulatorError>)
    ensures
        lists(utf8_lossy(stdout@), res),
        vstd::utf8::valid_utf8(stdout@) ==> lists(vstd::utf8::decode_utf8(stdout@), res),
{
    avds_in(utf8_lossy_of(stdout).as_str())
}

/// The names of virtual devices have something in them, and no white space on
/// their sides.
pub proof fn law_names_are_trimmed(lines: Seq<Seq<char>>, i: int)
    requires
        0 <= i < avd_names(lines).len(),
    ensures
        avd_names(lines)[i].len() > 0,
        !text::is_white(avd_names(lines)[i].first()),
        !text::is_white(avd_names(lines)[i].last()),
    decreases lines.len(),
{
    let before = avd_names(lines.drop_last());
    if i < before.len() {
        law_names_are_trimmed(lines.drop_last(), i);
    } else {
        text::lemma_trim_sides(lines.last());
    }
}

/// Whether the line has something on it beside white space.
pub open spec fn is_named(line: Seq<char>) -> bool {
    exists|i: int| 0 <= i < line.len() && !text::is_white(#[trigger] line[i])
}

proof fn lemma_names(lines: Seq<Seq<char>>) -> (at: Seq<int>)
    ensures
        at.len() == avd_names(lines).len(),
        forall|k: int| 0 <= k < at.len() ==> 0 <= #[trigger] at[k] < lines.len(),
        forall|k: int, l: int| 0 <= k < l < at.len() ==> #[trigger] at[k] < #[trigger] at[l],
        forall|i: int| 0 <= i < lines.len() ==> (is_named(#[trigger] lines[i]) <==> at.contains(i)),
        forall|k: int|
            0 <= k < at.len() ==> avd_names(lines)[k] == text::trim(lines[#[trigger] at[k]]),
    decreases lines.len(),
{
    if lines.len() == 0 {
        Seq::empty()
    } else {
        let n = lines.len() - 1;
        let rest = lines.drop_last();
        let before = lemma_names(rest);
        let name = text::trim(lines.last());
        let (from, to) = text::lemma_trim(lines.last());
        assert(is_named(lines[n]) <==> name.len() > 0) by {
            if name.len() > 0 {
                assert(!text::is_white(lines.last()[from]));
            }
        }
        let at = if name.len() > 0 {
            before.push(n)
        } else {
            before
        };
        assert forall|i: int| 0 <= i < lines.len() implies (is_named(#[trigger] lines[i])
            <==> at.contains(i)) by {
            if i < n {
                assert(rest[i] == lines[i]);
                if before.contains(i) {
                    assert(at[before.index_of(i)] == i);
                }
                if at.contains(i) {
                    assert(before[at.index_of(i)] == i);
                }
            } else {
                if name.len() > 0 {
                    assert(at[before.len() as int] == n);
                } else if at.contains(i) {
                    assert(before[at.index_of(i)] < n);
                }
            }
        }
        assert forall|k: int| 0 <= k < at.len() implies avd_names(lines)[k] == text::trim(
            lines[#[trigger] at[k]],
        ) by {
            if k < before.len() {
                assert(before[k] < n);
                assert(avd_names(rest)[k] == text::trim(rest[before[k]]));
            }
        }
        at
    }
}

/// A listing names a virtual device on each of its lines that has something on
/// it, and on no other, in their order: what stands there, without the white
/// space around it. That there is none is an error. What comes back is the line
/// of each.
pub proof fn law_every_avd_is_listed(
    listing: &str,
    res: Result<Vec<String>, EmulatorError>,
) -> (at: Seq<int>)
    requires
        call_ensures(avds_in, (listing,), res),
    ensures
        forall|k: int, l: int| 0 <= k < l < at.len() ==> #[trigger] at[k] < #[trigger] at[l],
        forall|i: int|
            0 <= i < text::lines(listing@).len() ==> (is_named(#[trigger] text::lines(listing@)[i])
                <==> at.contains(i)),
        res is Ok <==> at.len() > 0,
        res matches Ok(avds) ==> {
            &&& avds@.len() == at.len()
            &&& forall|k: int|
                0 <= k < at.len() ==> 0 <= #[trigger] at[k] < text::lines(listing@).len()
                    && avds@[k]@ == text::trim(text::lines(listing@)[at[k]])
        },
        res matches Err(e) ==> e is NoAvdsFound,
{
    let lines = text::lines(listing@);
    let at = lemma_names(lines);
    if let Ok(avds) = res {
        assert(text::views(avds@).len() == avds@.len());
        assert forall|k: int| 0 <= k < at.len() implies 0 <= #[trigger] at[k] < lines.len()
            && avds@[k]@ == text::trim(lines[at[k]]) by {
            assert(text::views(avds@)[k] == avds@[k]@);
        }
    }
    at
}

/// The virtual devices are those that the output of the tool lists.
pub proof fn law_output_is_listed(
    stdout: &[u8],
    listing: &str,
    res: Result<Vec<String>, EmulatorError>,
    direct: Result<Vec<String>, EmulatorError>,
)
    requires
        call_ensures(list_avds, (stdout,), res),
        call_ensures(avds_in, (listing,), direct),
        listing@ == utf8_lossy(stdout@) || vstd::utf8::valid_utf8(stdout@) && listing@
            == vstd::utf8::decode_utf8(stdout@),
    ensures
        res is Ok <==> direct is Ok,
        res matches Ok(avds) ==> text::views(avds@) == text::views(direct->Ok_0@),
        res matches Err(e) ==> e is NoAvdsFound,
{
}

/// Where the SDK and its tool are by default on each platform: below the home
/// directory, but on Windows below that for local data; and the tool is called
/// `emulator`, but on Windows `emulator.exe`.
pub proof fn law_default_locations(
    platform: Platform,
    base: BaseDir,
    locations: Vec<Vec<&'static str>>,
    tool: Vec<&'static str>,
)
    requires
        call_ensures(Platform::base_dir, (platform,), base),
        call_ensures(Platform::locations, (platform,), locations),
        call_ensures(Platform::emulator_tool, (platform,), tool),
    ensures
        base is LocalData <==> platform is Windows,
        tool@.len() == 2,
        tool@[0]@ == "emulator"@,
        platform is Windows ==> tool@[1]@ == "emulator.exe"@,
        platform !is Windows ==> tool@[1]@ == "emulator"@,
        platform is Linux ==> locations@.len() == 2,
        platform is MacOs ==> locations@.len() == 1,
        platform is Windows ==> locations@.len() == 1,
        platform is Other ==> locations@.len() == 0,
        platform is Linux ==> platform.spec_locations() == seq![
            seq!["Android"@, "sdk"@],
            seq!["Android"@, "Sdk"@],
        ],
        platform is MacOs ==> platform.spec_locations() == seq![
            seq!["Library"@, "Android"@, "sdk"@],
        ],
        platform is Windows ==> platform.spec_locations() == seq![seq!["Android"@, "Sdk"@]],
{
    assert(parts(tool@).len() == tool@.len());
    assert(parts(tool@)[0] == tool@[0]@);
    assert(parts(tool@)[1] == tool@[1]@);
}

/// The environment says where the SDK is, `ANDROID_HOME` before
/// `ANDROID_SDK_ROOT`. Where it does not, the first default location that exists
/// is taken: `i` is its number, or that of locations where none exists, in which
/// case there is no SDK.
pub proof fn law_sdk_is_found<'a>(
    platform: Platform,
    android_home: Option<String>,
    android_sdk_root: Option<String>,
    exist: Option<&'a Vec<bool>>,
    i: int,
    res: Result<SdkHome, EmulatorError>,
)
    requires
        call_ensures(get_android_home, (platform, android_home, android_sdk_root, exist), res),
        exist matches Some(e) ==> {
            &&& e@.len() == platform.spec_locations().len()
            &&& 0 <= i <= e@.len()
            &&& i < e@.len() ==> e@[i]
            &&& forall|j: int| 0 <= j < i ==> !#[trigger] e@[j]
        },
    ensures
        android_home matches Some(path) ==> res == Ok::<SdkHome, EmulatorError>(
            SdkHome::Given(path),
        ),
        android_home is None && android_sdk_root is Some ==> res == Ok::<SdkHome, EmulatorError>(
            SdkHome::Given(android_sdk_root->0),
        ),
        android_home is None && android_sdk_root is None ==> {
            &&& exist is None ==> res is Err
            &&& exist matches Some(e) ==> (res is Ok <==> i < e@.len())
            &&& res matches Err(e) ==> e is AndroidHomeNotFound
            &&& res matches Ok(home) ==> {
                &&& home matches SdkHome::Below(p)
                &&& platform is Linux && i == 0 ==> parts(p@) == seq!["Android"@, "sdk"@]
                &&& platform is Linux && i == 1 ==> parts(p@) == seq!["Android"@, "Sdk"@]
                &&& platform is MacOs ==> parts(p@) == seq!["Library"@, "Android"@, "sdk"@]
                &&& platform is Windows ==> parts(p@) == seq!["Android"@, "Sdk"@]
                &&& platform !is Other
            }
        },
{
    assert(finds_home(platform, android_home, android_sdk_root, exist, res));
    if android_home is None && android_sdk_root is None && exist is Some {
        let e = exist->0;
        if res is Ok {
            let k = choose|k: int|
                #![trigger e@[k]]
                {
                    &&& 0 <= k < e@.len()
                    &&& e@[k]
                    &&& forall|j: int| 0 <= j < k ==> !#[trigger] e@[j]
                    &&& res->Ok_0 matches SdkHome::Below(p) && parts(p@)
                        == platform.spec_locations()[k]
                };
            if i < k {
                assert(!e@[i]);
            }
        }
    }
}

/// The tools are where the SDK keeps them; a tool that is not there is an error
/// that names the path, and a path that is no text is refused.
pub proof fn law_tools(
    there: bool,
    path: String,
    checked: Result<(), EmulatorError>,
    adb: Vec<&'static str>,
    adb_path: Option<String>,
    server: Result<String, EmulatorError>,
)
    requires
        call_ensures(check_tool, (there, path), checked),
        call_ensures(adb_tool, (), adb),
        call_ensures(adb_server, (adb_path,), server),
    ensures
        ADB_PORT == 5037,
        there <==> checked is Ok,
        checked matches Err(e) ==> e == EmulatorError::EmulatorToolNotFound(path),
        adb@.len() == 2,
        adb@[0]@ == "platform-tools"@,
        adb@[1]@ == "adb"@,
        adb_path matches Some(text) ==> server == Ok::<String, EmulatorError>(text),
        adb_path is None ==> (server matches Err(EmulatorError::AdbError(m)) && m@
            == "Invalid Android home path"@),
{
    assert(parts(adb@).len() == adb@.len());
    assert(parts(adb@)[0] == adb@[0]@);
    assert(parts(adb@)[1] == adb@[1]@);
}

} // verus!
