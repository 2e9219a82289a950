//! Releases of the program: which one is newer, what is fetched of it, and how the running
//! program is exchanged for it.

use crate::strs;
use crate::text;
use vstd::prelude::*;

verus! {

/// Where the latest release is asked for.
pub const LATEST_RELEASE_URL: &'static str =
    "https://api.github.com/repos/myongsung/class/releases/latest";

/// The file of a release that holds the program for Windows.
pub const UPDATE_ASSET_NAME: &'static str = "roosycozy-x86_64-pc-windows-msvc.zip";

/// What is said where the program cannot update itself.
pub const UPDATE_UNSUPPORTED: &'static str = "윈도우에서만 자동 업데이트를 지원합니다.";

/// What is said where there is nothing to update.
pub const UP_TO_DATE: &'static str = "최신 버전입니다.";

/// What is said when the files of the program were put back.
pub const PROGRAM_REPAIRED: &'static str =
    "프로그램 파일을 복구했어요. resident llama-server runtime을 다시 채워 넣었으니 지금 바로 AI 채팅을 다시 시도해보세요.";

/// A version without the blanks around it and the `v` before it.
pub open spec fn bare_version(s: Seq<char>) -> Seq<char> {
    strs::trim_start_set(strs::trim(s), "v"@)
}

/// A version without the blanks around it and the `v` before it.
pub fn normalize_release_version(value: &str) -> (r: String)
    ensures
        r@ == bare_version(value@),
{
    text::trim_start_set(&text::trim(value), "v")
}

/// A number of a version: that between two dots, or zero where there is none.
pub open spec fn version_number(s: Seq<char>, i: int) -> nat {
    let parts = strs::split(bare_version(s), "."@);
    if 0 <= i < parts.len() {
        match strs::parse_unsigned(parts[i], u32::MAX as nat) {
            Some(n) => n,
            None => 0,
        }
    } else {
        0
    }
}

/// The first three numbers of a version.
pub open spec fn version(s: Seq<char>) -> (nat, nat, nat) {
    (version_number(s, 0), version_number(s, 1), version_number(s, 2))
}

fn number_at(parts: &Vec<String>, i: usize) -> (r: u32)
    ensures
        r == (if i < parts@.len() {
            match strs::parse_unsigned(parts@[i as int]@, u32::MAX as nat) {
                Some(n) => n,
                None => 0,
            }
        } else {
            0
        }),
{
    if i < parts.len() {
        match text::parse_unsigned(&parts[i], u32::MAX as u64) {
            Some(n) => n as u32,
            None => 0,
        }
    } else {
        0
    }
}

/// The first three numbers of a version.
pub fn parse_version_triplet(value: &str) -> (r: [u32; 3])
    ensures
        version(value@) == (r@[0] as nat, r@[1] as nat, r@[2] as nat),
{
    proof {
        reveal_strlit(".");
    }
    let bare = normalize_release_version(value);
    let parts = text::split(&bare, ".");
    assert(forall|i: int|
        0 <= i < parts@.len() ==> #[trigger] strs::views(parts@)[i] == parts@[i]@);
    assert(strs::views(parts@).len() == parts@.len());
    let a: u32 = number_at(&parts, 0);
    let b: u32 = number_at(&parts, 1);
    let c: u32 = number_at(&parts, 2);
    [a, b, c]
}

/// Whether a version comes before another.
pub open spec fn older(a: (nat, nat, nat), b: (nat, nat, nat)) -> bool {
    a.0 < b.0 || a.0 == b.0 && (a.1 < b.1 || a.1 == b.1 && a.2 < b.2)
}

/// Whether the latest release is newer than the program.
pub fn release_is_newer(current: &str, latest: &str) -> (r: bool)
    ensures
        r == older(version(current@), version(latest@)),
{
    let a = parse_version_triplet(current);
    let b = parse_version_triplet(latest);
    a[0] < b[0] || (a[0] == b[0] && (a[1] < b[1] || (a[1] == b[1] && a[2] < b[2])))
}

/// Of two releases with different numbers one is newer, and the newest of three is newer than
/// the oldest.
pub proof fn releases_are_ordered(a: Seq<char>, b: Seq<char>, c: Seq<char>)
    ensures
        !older(version(a), version(a)),
        older(version(a), version(b)) ==> !older(version(b), version(a)),
        older(version(a), version(b)) || older(version(b), version(a)) || version(a) == version(b),
        older(version(a), version(b)) && older(version(b), version(c)) ==> older(
            version(a),
            version(c),
        ),
{
}

/// A file of a release.
#[derive(Debug)]
pub struct GithubReleaseAsset {
    pub name: String,
    pub browser_download_url: String,
}

/// A release.
#[derive(Debug)]
pub struct GithubRelease {
    pub tag_name: String,
    pub assets: Vec<GithubReleaseAsset>,
}

/// Whether a file of a release is the first that holds the program.
pub open spec fn is_update_asset(assets: Seq<GithubReleaseAsset>, i: int) -> bool {
    &&& 0 <= i < assets.len()
    &&& assets[i].name@ == UPDATE_ASSET_NAME@
    &&& forall|j: int| 0 <= j < i ==> (#[trigger] assets[j]).name@ != UPDATE_ASSET_NAME@
}

/// Whether no file of a release holds the program.
pub open spec fn lacks_update(assets: Seq<GithubReleaseAsset>) -> bool {
    forall|j: int| 0 <= j < assets.len() ==> (#[trigger] assets[j]).name@ != UPDATE_ASSET_NAME@
}

/// The first file of a release that holds the program.
pub fn update_asset(assets: &Vec<GithubReleaseAsset>) -> (r: Option<usize>)
    ensures
        match r {
            Some(i) => is_update_asset(assets@, i as int),
            None => lacks_update(assets@),
        },
{
    let mut i: usize = 0;
    while i < assets.len()
        invariant
            i <= assets@.len(),
            forall|j: int| 0 <= j < i ==> (#[trigger] assets@[j]).name@ != UPDATE_ASSET_NAME@,
        decreases assets@.len() - i,
    {
        if text::same(&assets[i].name, UPDATE_ASSET_NAME) {
            return Some(i);
        }
        i += 1;
    }
    None
}

/// What is done with the latest release.
#[derive(Debug)]
pub enum UpdatePlan {
    /// The program is exchanged for it.
    Replace { url: String, version: String },
    /// The program stays; its files are put back from it where they are damaged.
    Keep { url: String },
}

/// What is said where a release lacks the program.
pub open spec fn asset_missing_text() -> Seq<char> {
    ("릴리즈 자산에서 "@ + UPDATE_ASSET_NAME@ + " 파일을 찾지 못했어요."@)
}

/// What is done with the latest release: the program is exchanged where the release is newer.
pub fn plan_update(app_version: &str, latest: &GithubRelease) -> (r: Result<UpdatePlan, String>)
    ensures
        match r {
            Ok(UpdatePlan::Replace { url, version: number }) => {
                &&& older(version(app_version@), version(number@))
                &&& number@ == bare_version(latest.tag_name@)
                &&& exists|i: int|
                    is_update_asset(latest.assets@, i) && url@
                        == (#[trigger] latest.assets@[i]).browser_download_url@
            },
            Ok(UpdatePlan::Keep { url }) => {
                &&& !older(version(app_version@), version(bare_version(latest.tag_name@)))
                &&& exists|i: int|
                    is_update_asset(latest.assets@, i) && url@
                        == (#[trigger] latest.assets@[i]).browser_download_url@
            },
            Err(message) => lacks_update(latest.assets@) && message@ == asset_missing_text(),
        },
{
    let number = normalize_release_version(&latest.tag_name);
    match update_asset(&latest.assets) {
        Some(i) => {
            let url = text::copy(&latest.assets[i].browser_download_url);
            if release_is_newer(app_version, &number) {
                Ok(UpdatePlan::Replace { url, version: number })
            } else {
                Ok(UpdatePlan::Keep { url })
            }
        },
        None => {
            let mut message = text::copy("릴리즈 자산에서 ");
            message.append(UPDATE_ASSET_NAME);
            message.append(" 파일을 찾지 못했어요.");
            Err(message)
        },
    }
}

/// What is said when the program was exchanged.
pub fn update_done_text(version: &str) -> (r: String)
    ensures
        r@ == ("업데이트 완료: 버전 "@ + version@ + ". 잠시 후 자동으로 새 버전이 다시 열립니다."@),
{
    let mut out = text::copy("업데이트 완료: 버전 ");
    out.append(version);
    out.append(". 잠시 후 자동으로 새 버전이 다시 열립니다.");
    out
}

/// A text with its quotes doubled, so that none of them closes it.
pub open spec fn quoted(s: Seq<char>) -> Seq<char> {
    strs::replace(s, "'"@, "''"@)
}

/// A path as it stands between the quotes of a script: its own quotes are doubled.
pub fn windows_ps_escape(value: &str) -> (r: String)
    ensures
        r@ == quoted(value@),
{
    proof {
        reveal_strlit("'");
    }
    text::replace(value, "'", "''")
}

/// The script that waits for the program to end, exchanges it for the new one and starts that.
pub open spec fn swap_script(target: Seq<char>, staged: Seq<char>, old: Seq<char>, pid: nat) -> Seq<
    char,
> {
    ("$target = '"@ + quoted(target) + "'\n$staged = '"@ + quoted(staged) + "'\n$old = '"@ + quoted(old) + "'\nwhile (Get-Process -Id "@ + strs::decimal(pid) + " -ErrorAction SilentlyContinue) { Start-Sleep -Milliseconds 500 }\nif (Test-Path $old) { Remove-Item -LiteralPath $old -Force -ErrorAction SilentlyContinue }\nif (Test-Path $target) { Move-Item -LiteralPath $target -Destination $old -Force }\nMove-Item -LiteralPath $staged -Destination $target -Force\nStart-Process -FilePath $target\n"@)
}

/// The script that waits for the program to end, exchanges it for the new one and starts that.
pub fn windows_swap_script(target: &str, staged: &str, replaced: &str, pid: u32) -> (r: String)
    ensures
        r@ == swap_script(target@, staged@, replaced@, pid as nat),
{
    let a = windows_ps_escape(target);
    let b = windows_ps_escape(staged);
    let c = windows_ps_escape(replaced);
    let d = text::decimal(pid as u64);
    let mut out = text::copy("$target = '");
    out.append(&a);
    out.append("'\n$staged = '");
    out.append(&b);
    out.append("'\n$old = '");
    out.append(&c);
    out.append("'\nwhile (Get-Process -Id ");
    out.append(&d);
    out.append(" -ErrorAction SilentlyContinue) { Start-Sleep -Milliseconds 500 }\nif (Test-Path $old) { Remove-Item -LiteralPath $old -Force -ErrorAction SilentlyContinue }\nif (Test-Path $target) { Move-Item -LiteralPath $target -Destination $old -Force }\nMove-Item -LiteralPath $staged -Destination $target -Force\nStart-Process -FilePath $target\n");
    out
}

/// What PowerShell is called with to run an encoded script out of sight.
pub fn powershell_arguments(encoded: &str) -> (r: Vec<String>)
    ensures
        strs::views(r@) == seq![
            "-NoProfile"@,
            "-NonInteractive"@,
            "-ExecutionPolicy"@,
            "Bypass"@,
            "-WindowStyle"@,
            "Hidden"@,
            "-EncodedCommand"@,
            encoded@,
        ],
{
    let r = text::owned(
        &[
            "-NoProfile",
            "-NonInteractive",
            "-ExecutionPolicy",
            "Bypass",
            "-WindowStyle",
            "Hidden",
            "-EncodedCommand",
            encoded,
        ],
    );
    assert(strs::views(r@) =~= seq![
        "-NoProfile"@,
        "-NonInteractive"@,
        "-ExecutionPolicy"@,
        "Bypass"@,
        "-WindowStyle"@,
        "Hidden"@,
        "-EncodedCommand"@,
        encoded@,
    ]);
    r
}

} // verus!
