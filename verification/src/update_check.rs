//! The self-update check: what each answer of the download host leads to, and
//! how the new build gets in place of the running one.
//!
//! Only `version.txt` starts an update. A small patch is tried first, then
//! the whole build. What was downloaded is staged only if its signature holds
//! under the release key; a build without one only where its patch came in an
//! encrypted frame, which the release's key has authenticated.

use crate::delta::{installable, signature_problem, signed, verify_bytes, verified_sig, Patched};
use crate::text::{
    cat2, cat3, cat4, cat5, contains_text, decimal, digits, lossy_text, occurs, owned, same,
    strip_prefix, trim, trimmed, utf8_lossy,
};
use crate::ui::share_targets::after_prefix;
use crate::versions::{is_newer_version, newer};
use vstd::prelude::*;

verus! {

/// How an update check ended.
#[derive(Debug)]
pub enum UpdateOutcome {
    UpToDate,
    /// Downloaded and staged next to the running build.
    Downloaded { path: String, version: String },
    Failed(String),
}

// ---------- Downloads ----------

/// How large a download may get, in bytes, and how long it may take, in
/// seconds.
#[derive(Debug, Clone, Copy, PartialEq, Eq, Structural)]
pub struct Limits {
    pub max_bytes: u64,
    pub timeout_secs: u64,
}

/// What is downloaded.
#[derive(Debug, Clone, Copy, PartialEq, Eq, Structural)]
pub enum Artifact {
    Version,
    Signature,
    Exe,
    Delta,
}

/// The limits of a download.
pub fn limits(a: Artifact) -> (r: Limits)
    ensures
        r == match a {
            Artifact::Version => Limits { max_bytes: 1024, timeout_secs: 15 },
            Artifact::Signature => Limits { max_bytes: 4096, timeout_secs: 30 },
            Artifact::Exe => Limits { max_bytes: 268_435_456, timeout_secs: 300 },
            Artifact::Delta => Limits { max_bytes: 67_108_864, timeout_secs: 60 },
        },
{
    match a {
        Artifact::Version => Limits { max_bytes: 1024, timeout_secs: 15 },
        Artifact::Signature => Limits { max_bytes: 4096, timeout_secs: 30 },
        Artifact::Exe => Limits { max_bytes: 268_435_456, timeout_secs: 300 },
        Artifact::Delta => Limits { max_bytes: 67_108_864, timeout_secs: 60 },
    }
}

/// Why an answer is refused before its body is read, if it is.
pub open spec fn answer_problem(success: bool, status: Seq<char>, length: Option<u64>, max: u64) -> Option<
    Seq<char>,
> {
    if !success {
        Some("server returned HTTP "@ + status)
    } else {
        match length {
            Some(n) => if n > max {
                Some("download too large ("@ + digits(n as nat) + " bytes)"@)
            } else {
                None
            },
            None => None,
        }
    }
}

/// Whether the body of an answer is read at all.
pub fn check_answer(success: bool, status: &str, length: Option<u64>, max: u64) -> (r: Result<(), String>)
    ensures
        match r {
            Ok(()) => answer_problem(success, status@, length, max) is None,
            Err(e) => answer_problem(success, status@, length, max) == Some(e@),
        },
{
    if !success {
        return Err(cat2("server returned HTTP ", status));
    }
    match length {
        Some(n) => {
            if n > max {
                Err(cat3("download too large (", &decimal(n), " bytes)"))
            } else {
                Ok(())
            }
        },
        None => Ok(()),
    }
}

/// Takes a piece of the body, as long as all of it stays within the limit:
/// however the pieces arrive, no more than that is ever held.
pub fn take_chunk(buf: &mut Vec<u8>, chunk: &[u8], max: u64) -> (r: Result<(), String>)
    ensures
        old(buf)@.len() <= max ==> final(buf)@.len() <= max,
        match r {
            Ok(()) => old(buf)@.len() + chunk@.len() <= max && final(buf)@ == old(buf)@ + chunk@,
            Err(e) => old(buf)@.len() + chunk@.len() > max && final(buf)@ == old(buf)@ && e@
                == "download exceeded the size cap"@,
        },
{
    let ghost before = buf@;
    if buf.len() as u128 + chunk.len() as u128 > max as u128 {
        return Err(owned("download exceeded the size cap"));
    }
    let mut i: usize = 0;
    assert(chunk@.take(0) =~= Seq::<u8>::empty());
    assert(buf@ =~= before + chunk@.take(0));
    while i < chunk.len()
        invariant
            i <= chunk@.len(),
            buf@ == before + chunk@.take(i as int),
        decreases chunk@.len() - i,
    {
        buf.push(chunk[i]);
        assert(chunk@.take(i + 1) =~= chunk@.take(i as int).push(chunk@[i as int]));
        assert(buf@ =~= before + chunk@.take(i + 1));
        i += 1;
    }
    assert(chunk@.take(chunk@.len() as int) =~= chunk@);
    Ok(())
}

// ---------- The check, step by step ----------

/// Where a build came from.
#[derive(Debug, Clone, Copy, PartialEq, Eq, Structural)]
pub enum Origin {
    /// Downloaded whole.
    Whole,
    /// Made by a patch that came without a frame.
    PlainPatch,
    /// Made by a patch in a frame that opened under the release's key.
    FramedPatch,
}

/// Where the build of a patch came from.
pub open spec fn patch_origin(p: Patched) -> Origin {
    if p.authentic {
        Origin::FramedPatch
    } else {
        Origin::PlainPatch
    }
}

/// What to do next.
pub enum UpdateStep {
    /// Fetch the patch to this version.
    GetDelta { url: String, version: String },
    /// Fetch the whole build.
    GetExe { version: String },
    /// Fetch the signature of this build.
    GetSignature { exe: Vec<u8>, origin: Origin, version: String },
    /// Write this build and its signature (empty for none) to disk.
    Stage { exe: Vec<u8>, sig: Vec<u8>, version: String },
    Done(UpdateOutcome),
}

/// Where the patch from one version to another is.
pub open spec fn delta_address(base: Seq<char>, stem: Seq<char>, from: Seq<char>, to: Seq<char>) -> Seq<
    char,
> {
    base + stem + "-"@ + from + ("-"@ + to + ".delta"@)
}

fn delta_url(base: &str, stem: &str, from: &str, to: &str) -> (r: String)
    ensures
        r@ == delta_address(base@, stem@, from@, to@),
{
    cat5(base, stem, "-", from, &cat3("-", to, ".delta"))
}

/// What the text of `version.txt` leads to: an update only where it names a
/// newer version.
pub open spec fn after_version(
    text: Option<Seq<char>>,
    base: Seq<char>,
    stem: Seq<char>,
    current: Seq<char>,
    r: UpdateStep,
) -> bool {
    if text is Some && trimmed(text->0).len() > 0 && newer(trimmed(text->0), current) {
        match r {
            UpdateStep::GetDelta { url, version } => version@ == trimmed(text->0) && url@
                == delta_address(base, stem, current, version@),
            _ => false,
        }
    } else {
        r == UpdateStep::Done(UpdateOutcome::UpToDate)
    }
}

/// [`after_version`], computed.
pub fn on_version_text(text: Option<String>, base: &str, stem: &str, current: &str) -> (r: UpdateStep)
    ensures
        after_version(
            match text {
                Some(t) => Some(t@),
                None => None,
            },
            base@,
            stem@,
            current@,
            r,
        ),
{
    match text {
        Some(t) => {
            let version = trim(&t);
            if version.as_str().is_empty() || !is_newer_version(&version, current) {
                return UpdateStep::Done(UpdateOutcome::UpToDate);
            }
            UpdateStep::GetDelta { url: delta_url(base, stem, current, &version), version }
        },
        None => UpdateStep::Done(UpdateOutcome::UpToDate),
    }
}

/// What the download of `version.txt` leads to; one that failed counts as
/// nothing new.
pub fn on_version(reply: Option<&[u8]>, base: &str, stem: &str, current: &str) -> (r: UpdateStep)
    ensures
        after_version(
            match reply {
                Some(b) => Some(utf8_lossy(b@)),
                None => None,
            },
            base@,
            stem@,
            current@,
            r,
        ),
{
    let text = match reply {
        Some(b) => Some(lossy_text(b)),
        None => None,
    };
    on_version_text(text, base, stem, current)
}

/// What the patch led to: its build is staged with the signature that came
/// with it, where that holds, and may then be installed; without one the host
/// is asked; and without a patch the whole build is fetched.
pub fn on_delta(patched: Option<Patched>, key_b64: &str, version: String) -> (r: UpdateStep)
    ensures
        match patched {
            None => r == (UpdateStep::GetExe { version }),
            Some(p) => r == match p.embedded_sig {
                Some(s) => if signed(p.exe@, s@, key_b64@) {
                    UpdateStep::Stage { exe: p.exe, sig: s, version }
                } else {
                    UpdateStep::GetSignature { exe: p.exe, origin: patch_origin(p), version }
                },
                None => UpdateStep::GetSignature { exe: p.exe, origin: patch_origin(p), version },
            },
        },
        r matches UpdateStep::Stage { exe, sig, .. } ==> signed(exe@, sig@, key_b64@)
            && installable(exe@, sig@, key_b64@),
{
    match patched {
        None => UpdateStep::GetExe { version },
        Some(p) => {
            let Patched { exe, embedded_sig, authentic } = p;
            let origin = if authentic {
                Origin::FramedPatch
            } else {
                Origin::PlainPatch
            };
            match embedded_sig {
                Some(s) => match verified_sig(exe.as_slice(), s, key_b64) {
                    Some(sig) => UpdateStep::Stage { exe, sig, version },
                    None => UpdateStep::GetSignature { exe, origin, version },
                },
                None => UpdateStep::GetSignature { exe, origin, version },
            }
        },
    }
}

/// Why there is no package for us.
pub open spec fn no_package(err: Seq<char>, current: Seq<char>, version: Seq<char>) -> Seq<char> {
    if occurs(err, "404"@) {
        "Update v"@ + version + " is advertised, but no package for your build (v"@ + current
            + (") is on the server. Need deltas/HexaTalk-"@ + current + "-"@ + version
            + ".delta or HexaTalk.exe (404)."@)
    } else {
        "No usable delta for "@ + current + "→"@ + version + (", and full download failed: "@ + err)
    }
}

/// What the download of the whole build leads to: nothing vouches for it but
/// its signature.
pub fn on_exe(reply: Result<Vec<u8>, String>, current: &str, version: String) -> (r: UpdateStep)
    ensures
        match reply {
            Ok(exe) => r == (UpdateStep::GetSignature { exe, origin: Origin::Whole, version }),
            Err(err) => match r {
                UpdateStep::Done(UpdateOutcome::Failed(text)) => text@ == no_package(
                    err@,
                    current@,
                    version@,
                ),
                _ => false,
            },
        },
{
    match reply {
        Ok(exe) => UpdateStep::GetSignature { exe, origin: Origin::Whole, version },
        Err(err) => {
            let text = if contains_text(&err, "404") {
                cat5(
                    "Update v",
                    &version,
                    " is advertised, but no package for your build (v",
                    current,
                    &cat5(
                        ") is on the server. Need deltas/HexaTalk-",
                        current,
                        "-",
                        &version,
                        ".delta or HexaTalk.exe (404).",
                    ),
                )
            } else {
                cat5(
                    "No usable delta for ",
                    current,
                    "→",
                    &version,
                    &cat2(", and full download failed: ", &err),
                )
            };
            UpdateStep::Done(UpdateOutcome::Failed(text))
        },
    }
}

/// Why the build is not trusted by its signature, if it is not.
pub open spec fn trust_problem(exe: Seq<u8>, reply: Result<Seq<u8>, Seq<char>>, key_b64: Seq<char>) -> Option<
    Seq<char>,
> {
    match reply {
        Ok(sig) => match signature_problem(exe, sig, key_b64) {
            Some(why) => Some("update signature rejected: "@ + why),
            None => None,
        },
        Err(why) => Some("couldn't get the update signature: "@ + why),
    }
}

/// What the download of the signature leads to: a build whose signature holds
/// is staged with it. Where it is missing or does not hold, a build that a
/// framed patch made is staged without; for one that a plain patch made the
/// whole build is fetched instead; and a whole build is refused.
pub fn on_signature(
    exe: Vec<u8>,
    origin: Origin,
    reply: Result<Vec<u8>, String>,
    key_b64: &str,
    version: String,
) -> (r: UpdateStep)
    ensures
        match trust_problem(
            exe@,
            match reply {
                Ok(s) => Ok(s@),
                Err(e) => Err(e@),
            },
            key_b64@,
        ) {
            None => reply is Ok && r == (UpdateStep::Stage { exe, sig: reply->Ok_0, version }),
            Some(why) => match origin {
                Origin::FramedPatch => match r {
                    UpdateStep::Stage { exe: e, sig, version: v } => e == exe && v == version
                        && sig@.len() == 0,
                    _ => false,
                },
                Origin::PlainPatch => r == (UpdateStep::GetExe { version }),
                Origin::Whole => match r {
                    UpdateStep::Done(UpdateOutcome::Failed(text)) => text@ == why,
                    _ => false,
                },
            },
        },
        r matches UpdateStep::Stage { exe: e, sig, .. } ==> origin == Origin::FramedPatch || signed(
            e@,
            sig@,
            key_b64@,
        ),
        r matches UpdateStep::Stage { exe: e, sig, .. } ==> e@.len() > 0 ==> installable(
            e@,
            sig@,
            key_b64@,
        ),
{
    let why = match reply {
        Ok(sig) => match verify_bytes(exe.as_slice(), sig.as_slice(), key_b64) {
            Ok(()) => {
                return UpdateStep::Stage { exe, sig, version };
            },
            Err(why) => cat2("update signature rejected: ", &why),
        },
        Err(why) => cat2("couldn't get the update signature: ", &why),
    };
    match origin {
        Origin::FramedPatch => UpdateStep::Stage { exe, sig: Vec::new(), version },
        Origin::PlainPatch => UpdateStep::GetExe { version },
        Origin::Whole => UpdateStep::Done(UpdateOutcome::Failed(why)),
    }
}

/// Where the new build and its signature are put.
pub fn staged_paths(exe_path: &str) -> (r: (String, String))
    ensures
        (r.0)@ == exe_path@ + ".new"@,
        (r.1)@ == (r.0)@ + ".sig"@,
{
    let staged = cat2(exe_path, ".new");
    let sig = cat2(&staged, ".sig");
    (staged, sig)
}

/// How writing the new build to disk went.
pub enum Staged {
    /// The running build could not be located.
    Nowhere,
    ExeUnsaved(String),
    /// The build was saved, but not its signature.
    SigUnsaved(String),
    /// All is there, the build at this path.
    Saved(String),
}

/// How the check ended, and whether the build that was saved is to be removed
/// again: none stays without its signature file.
pub fn on_staged(staged: Staged, version: String) -> (r: (UpdateOutcome, bool))
    ensures
        r.1 == staged is SigUnsaved,
        match (staged, r.0) {
            (Staged::Saved(p), UpdateOutcome::Downloaded { path, version: v }) => path == p && v
                == version,
            (Staged::Nowhere, UpdateOutcome::Failed(text)) => text@
                == "couldn't locate the running executable"@,
            (Staged::ExeUnsaved(err), UpdateOutcome::Failed(text)) => text@
                == "couldn't save downloaded update: "@ + err@,
            (Staged::SigUnsaved(err), UpdateOutcome::Failed(text)) => text@
                == "couldn't save update signature: "@ + err@,
            _ => false,
        },
{
    match staged {
        Staged::Nowhere => (
            UpdateOutcome::Failed(owned("couldn't locate the running executable")),
            false,
        ),
        Staged::ExeUnsaved(err) => (
            UpdateOutcome::Failed(cat2("couldn't save downloaded update: ", &err)),
            false,
        ),
        Staged::SigUnsaved(err) => (
            UpdateOutcome::Failed(cat2("couldn't save update signature: ", &err)),
            true,
        ),
        Staged::Saved(path) => (UpdateOutcome::Downloaded { path, version }, false),
    }
}

// ---------- Putting the new build in place ----------

/// The systems that updates differ for.
#[derive(Debug, Clone, Copy, PartialEq, Eq, Structural)]
pub enum Platform {
    Windows,
    Unix,
    MacOs,
}

/// What is done with a staged build when the client quits.
pub enum SwapPlan {
    /// Nothing.
    Skip,
    /// Remove these files: the build may not be installed.
    Discard { staged: String, sig: String },
    /// Run this in the command interpreter.
    Command(String),
    /// Hand these to the shell script that waits for the process to end.
    Shell { staged: String, exe: String, relaunch: &'static str },
}

/// A path without the prefix for extended lengths, which the command
/// interpreter does not understand.
pub open spec fn plain_path(p: Seq<char>) -> Seq<char> {
    match after_prefix(p, "\\\\?\\"@) {
        Some(rest) => rest,
        None => p,
    }
}

fn dos_path(p: &str) -> (r: String)
    ensures
        r@ == plain_path(p@),
{
    match strip_prefix(p, "\\\\?\\") {
        Some(rest) => rest,
        None => owned(p),
    }
}

/// The commands that move a build in place, and start it if wanted.
pub open spec fn swap_script(staged: Seq<char>, exe: Seq<char>, relaunch: bool) -> Seq<char> {
    let base = "ping -n 2 127.0.0.1 >nul & move /Y \""@ + staged + "\" \""@ + exe + ("\" & del \""@
        + staged + ".sig\""@);
    if relaunch {
        base + " & start \"\" \""@ + exe + "\""@
    } else {
        base
    }
}

/// What is done with the build at `staged_path`, given where the running one
/// is and whether the staged one may be installed.
pub fn stage_exe_swap(
    platform: Platform,
    staged_path: &str,
    exe_path: Option<&str>,
    valid: bool,
    relaunch: bool,
) -> (r: SwapPlan)
    ensures
        match (platform, exe_path) {
            (Platform::MacOs, _) => r is Skip,
            (_, None) => r is Skip,
            (_, Some(exe)) => if !valid {
                match r {
                    SwapPlan::Discard { staged, sig } => staged@ == staged_path@ && sig@
                        == staged_path@ + ".sig"@,
                    _ => false,
                }
            } else if platform == Platform::Windows {
                match r {
                    SwapPlan::Command(s) => s@ == swap_script(
                        plain_path(staged_path@),
                        plain_path(exe@),
                        relaunch,
                    ),
                    _ => false,
                }
            } else {
                match r {
                    SwapPlan::Shell { staged, exe: e, relaunch: flag } => staged@ == staged_path@
                        && e@ == exe@ && flag@ == if relaunch {
                        "1"@
                    } else {
                        "0"@
                    },
                    _ => false,
                }
            },
        },
{
    match platform {
        Platform::MacOs => {
            return SwapPlan::Skip;
        },
        _ => {},
    }
    let exe = match exe_path {
        Some(e) => e,
        None => {
            return SwapPlan::Skip;
        },
    };
    if !valid {
        return SwapPlan::Discard { staged: owned(staged_path), sig: cat2(staged_path, ".sig") };
    }
    match platform {
        Platform::Windows => {
            let staged = dos_path(staged_path);
            let exe = dos_path(exe);
            let base = cat5(
                "ping -n 2 127.0.0.1 >nul & move /Y \"",
                &staged,
                "\" \"",
                &exe,
                &cat3("\" & del \"", &staged, ".sig\""),
            );
            if relaunch {
                SwapPlan::Command(cat4(&base, " & start \"\" \"", &exe, "\""))
            } else {
                SwapPlan::Command(base)
            }
        },
        _ => SwapPlan::Shell {
            staged: owned(staged_path),
            exe: owned(exe),
            relaunch: if relaunch {
                "1"
            } else {
                "0"
            },
        },
    }
}

/// The name of our package at the download host, by system and processor.
pub open spec fn package_name(os: Seq<char>, arch: Seq<char>) -> Seq<char> {
    if os == "linux"@ && arch == "x86_64"@ {
        "HexaTalk-linux-x86_64.AppImage"@
    } else if os == "linux"@ && arch == "aarch64"@ {
        "HexaTalk-linux-aarch64.AppImage"@
    } else {
        "HexaTalk"@
    }
}

/// [`package_name`], computed.
pub fn update_artifact_stem(os: &str, arch: &str) -> (r: &'static str)
    ensures
        r@ == package_name(os@, arch@),
{
    if same(os, "linux") && same(arch, "x86_64") {
        "HexaTalk-linux-x86_64.AppImage"
    } else if same(os, "linux") && same(arch, "aarch64") {
        "HexaTalk-linux-aarch64.AppImage"
    } else {
        "HexaTalk"
    }
}

} // verus!
