//! Binary discovery.
//!
//! A logical binary (the worker, the external transcoder) is searched for
//! along an ordered candidate list, most specific location first; the first
//! candidate whose probe succeeds wins and nothing after it is ever probed.
//! The filesystem and PATH probes themselves are performed by the caller,
//! which drives a [`ProbeScan`] or hands completed probe outcomes in.

use vstd::prelude::*;
use vstd::string::*;

use crate::platform::Platform;
use crate::platform::spec_fallback_worker_name;
use crate::platform::fallback_worker_name;
use crate::text::has_prefix;
use crate::text::has_suffix;
use crate::text::starts_with;
use crate::text::ends_with;

verus! {

/// No probe in `hits` succeeded.
pub open spec fn no_hit(hits: Seq<bool>) -> bool {
    forall|j: int| 0 <= j < hits.len() ==> !hits[j]
}

/// `i` is the first index of `hits` whose probe succeeded.
pub open spec fn first_hit_at(hits: Seq<bool>, i: int) -> bool {
    &&& 0 <= i < hits.len()
    &&& hits[i]
    &&& forall|j: int| 0 <= j < i ==> !hits[j]
}

/// One in-order search over a candidate list of known length.
///
/// The caller repeatedly asks [`ProbeScan::pending`] for the next candidate
/// to probe and reports the outcome through [`ProbeScan::record`]; after a
/// success no further candidate is ever requested. The ghost probe history
/// pins the search down: the outcome is the first recorded success, and
/// nothing past it was probed.
pub struct ProbeScan {
    total: usize,
    next_idx: usize,
    found: Option<usize>,
    history: Ghost<Seq<bool>>,
}

impl ProbeScan {
    /// How many candidates the list has.
    pub closed spec fn capacity(self) -> nat {
        self.total as nat
    }

    /// The outcomes reported so far, in probe order.
    pub closed spec fn probes(self) -> Seq<bool> {
        self.history@
    }

    /// The index of the successful probe, if one succeeded.
    pub closed spec fn outcome(self) -> Option<usize> {
        self.found
    }

    /// The scan's invariant: probes were made in order from the front, and
    /// the scan stopped exactly at the first success, if there was one.
    pub closed spec fn wf(self) -> bool {
        match self.found {
            None => {
                &&& self.history@.len() == self.next_idx as int
                &&& self.next_idx <= self.total
                &&& no_hit(self.history@)
            },
            Some(i) => {
                &&& self.history@.len() == i + 1
                &&& i < self.total
                &&& first_hit_at(self.history@, i as int)
            },
        }
    }

    /// Begin a search over `total` candidates.
    pub fn new(total: usize) -> (s: Self)
        ensures
            s.wf(),
            s.capacity() == total,
            s.probes() == Seq::<bool>::empty(),
            s.outcome() is None,
    {
        ProbeScan { total, next_idx: 0, found: None, history: Ghost(Seq::empty()) }
    }

    /// The index of the next candidate to probe, or nothing when the search
    /// is over — because a probe succeeded or the list is exhausted.
    pub fn pending(&self) -> (r: Option<usize>)
        requires
            self.wf(),
        ensures
            r == (if self.outcome() is None && self.probes().len() < self.capacity() {
                Some(self.probes().len() as usize)
            } else {
                None::<usize>
            }),
            self.outcome() is Some ==> r is None,
    {
        match self.found {
            Some(_) => None,
            None => {
                if self.next_idx < self.total {
                    Some(self.next_idx)
                } else {
                    None
                }
            },
        }
    }

    /// Report the outcome of probing the pending candidate.
    pub fn record(&mut self, hit: bool)
        requires
            old(self).wf(),
            old(self).outcome() is None,
            old(self).probes().len() < old(self).capacity(),
        ensures
            final(self).wf(),
            final(self).capacity() == old(self).capacity(),
            final(self).probes() == old(self).probes().push(hit),
            final(self).outcome() == (if hit {
                Some(old(self).probes().len() as usize)
            } else {
                None::<usize>
            }),
    {
        proof {
            self.history@ = self.history@.push(hit);
        }
        if hit {
            self.found = Some(self.next_idx);
        } else {
            self.next_idx = self.next_idx + 1;
        }
    }

    /// The search's result: the index of the first existing candidate.
    pub fn result(&self) -> (r: Option<usize>)
        requires
            self.wf(),
        ensures
            r == self.outcome(),
    {
        self.found
    }
}

/// A finished scan returned the first successful probe and stopped probing
/// the moment it succeeded: nothing after the hit was ever inspected.
pub proof fn lemma_scan_short_circuit(s: ProbeScan)
    requires
        s.wf(),
    ensures
        s.outcome() matches Some(i) ==> first_hit_at(s.probes(), i as int) && s.probes().len()
            == i + 1,
        s.outcome() is None ==> no_hit(s.probes()),
{
}

/// Resolve a candidate list against completed probe outcomes: the first
/// successful candidate's index, if any probe succeeded.
pub fn select_existing(hits: &Vec<bool>) -> (r: Option<usize>)
    ensures
        r matches Some(i) ==> first_hit_at(hits@, i as int),
        r is None ==> no_hit(hits@),
{
    let mut scan = ProbeScan::new(hits.len());
    loop
        invariant
            scan.wf(),
            scan.capacity() == hits@.len(),
            scan.outcome() is None ==> scan.probes().len() <= hits@.len(),
            forall|j: int| 0 <= j < scan.probes().len() ==> scan.probes()[j] == hits@[j],
        ensures
            scan.wf(),
            scan.capacity() == hits@.len(),
            forall|j: int| 0 <= j < scan.probes().len() ==> scan.probes()[j] == hits@[j],
            scan.outcome() is None ==> scan.probes().len() == hits@.len(),
        decreases hits@.len() - scan.probes().len() + (if scan.outcome() is None {
            1int
        } else {
            0int
        }),
    {
        match scan.pending() {
            None => {
                break ;
            },
            Some(i) => {
                scan.record(hits[i]);
            },
        }
    }
    let r = scan.result();
    proof {
        lemma_scan_short_circuit(scan);
        if r is None {
            assert(scan.probes().len() == hits@.len());
            assert forall|j: int| 0 <= j < hits@.len() implies !hits@[j] by {
                assert(!scan.probes()[j]);
            }
        }
    }
    r
}

/// The ordered candidate locations for the worker executable: the bundled
/// `binaries` subdirectory of the resource directory, the resource directory
/// itself, and the `backend` subdirectory of the working directory used by
/// the development layout.
pub fn worker_candidates(resource_dir: &str, cwd: &str, name: &str) -> (v: Vec<String>)
    ensures
        v@.len() == 3,
        v@[0]@ == resource_dir@ + "/binaries/"@ + name@,
        v@[1]@ == resource_dir@ + "/"@ + name@,
        v@[2]@ == cwd@ + "/backend/"@ + name@,
{
    let mut v: Vec<String> = Vec::new();
    v.push(String::from_str(resource_dir).concat("/binaries/").concat(name));
    v.push(String::from_str(resource_dir).concat("/").concat(name));
    v.push(String::from_str(cwd).concat("/backend/").concat(name));
    v
}

/// Turn a finished worker search into the path to spawn: the chosen
/// candidate, or — when nothing was found — the bare platform-appropriate
/// command name, leaving resolution to the PATH at spawn time.
pub fn resolve_worker_path(candidates: &Vec<String>, chosen: Option<usize>, windows: bool) -> (r:
    String)
    requires
        chosen matches Some(i) ==> i < candidates@.len(),
    ensures
        chosen matches Some(i) ==> r@ == candidates@[i as int]@,
        chosen is None ==> r@ == spec_fallback_worker_name(windows),
{
    match chosen {
        Some(i) => candidates[i].clone(),
        None => String::from_str(fallback_worker_name(windows)),
    }
}

/// Locate the worker executable: the first existing candidate, or the bare
/// fallback name when no candidate exists.
pub fn locate_worker(candidates: &Vec<String>, hits: &Vec<bool>, windows: bool) -> (r: String)
    requires
        hits@.len() == candidates@.len(),
    ensures
        forall|i: int|
            first_hit_at(hits@, i) ==> r@ == candidates@[i]@,
        no_hit(hits@) ==> r@ == spec_fallback_worker_name(windows),
{
    let chosen = select_existing(hits);
    let r = resolve_worker_path(candidates, chosen, windows);
    proof {
        match chosen {
            Some(c) => {
                assert forall|i: int| first_hit_at(hits@, i) implies i == c as int by {
                    if i < c as int {
                        assert(!hits@[i]);
                    }
                    if (c as int) < i {
                        assert(!hits@[c as int]);
                    }
                }
            },
            None => {},
        }
    }
    r
}

/// The fixed, well-known transcoder install locations for a platform, in
/// preference order. `home`, `local_app`, `program_files` and
/// `program_files_x86` are the values of the corresponding user-profile
/// environment variables; only the Windows list uses them.
pub fn ffmpeg_fixed_candidates(
    p: Platform,
    home: &str,
    local_app: &str,
    program_files: &str,
    program_files_x86: &str,
) -> (v: Vec<String>)
    ensures
        p is WindowsX64 ==> {
            &&& v@.len() == 11
            &&& v@[0]@ == home@ + "/scoop/apps/ffmpeg/current/bin/ffmpeg.exe"@
            &&& v@[1]@ == home@ + "/scoop/shims/ffmpeg.exe"@
            &&& v@[2]@ == "C:/ProgramData/chocolatey/bin/ffmpeg.exe"@
            &&& v@[3]@ == home@ + "/AppData/Local/Microsoft/WindowsApps/ffmpeg.exe"@
            &&& v@[4]@ == program_files@ + "/ffmpeg/bin/ffmpeg.exe"@
            &&& v@[5]@ == program_files@ + "/ffmpeg-essentials/bin/ffmpeg.exe"@
            &&& v@[6]@ == program_files_x86@ + "/ffmpeg/bin/ffmpeg.exe"@
            &&& v@[7]@ == local_app@
                + "/Python/Python312/site-packages/imageio_ffmpeg/binaries/ffmpeg.exe"@
            &&& v@[8]@ == local_app@
                + "/Python/Python311/site-packages/imageio_ffmpeg/binaries/ffmpeg.exe"@
            &&& v@[9]@ == local_app@
                + "/Python/Python310/site-packages/imageio_ffmpeg/binaries/ffmpeg.exe"@
            &&& v@[10]@ == local_app@
                + "/Python/Python39/site-packages/imageio_ffmpeg/binaries/ffmpeg.exe"@
        },
        p is MacosArm64 || p is MacosX64 ==> {
            &&& v@.len() == 4
            &&& v@[0]@ == "/opt/homebrew/bin/ffmpeg"@
            &&& v@[1]@ == "/usr/local/bin/ffmpeg"@
            &&& v@[2]@ == "/opt/local/bin/ffmpeg"@
            &&& v@[3]@ == "/usr/bin/ffmpeg"@
        },
        p is LinuxX64 ==> {
            &&& v@.len() == 5
            &&& v@[0]@ == "/usr/bin/ffmpeg"@
            &&& v@[1]@ == "/usr/local/bin/ffmpeg"@
            &&& v@[2]@ == "/snap/bin/ffmpeg"@
            &&& v@[3]@ == "/var/lib/flatpak/exports/bin/ffmpeg"@
            &&& v@[4]@ == "/usr/games/ffmpeg"@
        },
        p is Other ==> v@.len() == 0,
{
    let mut v: Vec<String> = Vec::new();
    match p {
        Platform::WindowsX64 => {
            v.push(String::from_str(home).concat("/scoop/apps/ffmpeg/current/bin/ffmpeg.exe"));
            v.push(String::from_str(home).concat("/scoop/shims/ffmpeg.exe"));
            v.push(String::from_str("C:/ProgramData/chocolatey/bin/ffmpeg.exe"));
            v.push(String::from_str(home).concat("/AppData/Local/Microsoft/WindowsApps/ffmpeg.exe"));
            v.push(String::from_str(program_files).concat("/ffmpeg/bin/ffmpeg.exe"));
            v.push(String::from_str(program_files).concat("/ffmpeg-essentials/bin/ffmpeg.exe"));
            v.push(String::from_str(program_files_x86).concat("/ffmpeg/bin/ffmpeg.exe"));
            v.push(
                String::from_str(local_app).concat(
                    "/Python/Python312/site-packages/imageio_ffmpeg/binaries/ffmpeg.exe",
                ),
            );
            v.push(
                String::from_str(local_app).concat(
                    "/Python/Python311/site-packages/imageio_ffmpeg/binaries/ffmpeg.exe",
                ),
            );
            v.push(
                String::from_str(local_app).concat(
                    "/Python/Python310/site-packages/imageio_ffmpeg/binaries/ffmpeg.exe",
                ),
            );
            v.push(
                String::from_str(local_app).concat(
                    "/Python/Python39/site-packages/imageio_ffmpeg/binaries/ffmpeg.exe",
                ),
            );
        },
        Platform::MacosArm64 | Platform::MacosX64 => {
            v.push(String::from_str("/opt/homebrew/bin/ffmpeg"));
            v.push(String::from_str("/usr/local/bin/ffmpeg"));
            v.push(String::from_str("/opt/local/bin/ffmpeg"));
            v.push(String::from_str("/usr/bin/ffmpeg"));
        },
        Platform::LinuxX64 => {
            v.push(String::from_str("/usr/bin/ffmpeg"));
            v.push(String::from_str("/usr/local/bin/ffmpeg"));
            v.push(String::from_str("/snap/bin/ffmpeg"));
            v.push(String::from_str("/var/lib/flatpak/exports/bin/ffmpeg"));
            v.push(String::from_str("/usr/games/ffmpeg"));
        },
        Platform::Other => {},
    }
    v
}

/// The versioned per-Python-install transcoder directories scanned as a
/// last resort on Windows, newest Python version first. `roaming` is the
/// user's roaming application-data directory.
pub fn imageio_binary_dirs(roaming: &str) -> (v: Vec<String>)
    ensures
        v@.len() == 6,
        v@[0]@ == roaming@ + "/Python/Python314/site-packages/imageio_ffmpeg/binaries"@,
        v@[1]@ == roaming@ + "/Python/Python313/site-packages/imageio_ffmpeg/binaries"@,
        v@[2]@ == roaming@ + "/Python/Python312/site-packages/imageio_ffmpeg/binaries"@,
        v@[3]@ == roaming@ + "/Python/Python311/site-packages/imageio_ffmpeg/binaries"@,
        v@[4]@ == roaming@ + "/Python/Python310/site-packages/imageio_ffmpeg/binaries"@,
        v@[5]@ == roaming@ + "/Python/Python39/site-packages/imageio_ffmpeg/binaries"@,
{
    let mut v: Vec<String> = Vec::new();
    v.push(String::from_str(roaming).concat("/Python/Python314/site-packages/imageio_ffmpeg/binaries"));
    v.push(String::from_str(roaming).concat("/Python/Python313/site-packages/imageio_ffmpeg/binaries"));
    v.push(String::from_str(roaming).concat("/Python/Python312/site-packages/imageio_ffmpeg/binaries"));
    v.push(String::from_str(roaming).concat("/Python/Python311/site-packages/imageio_ffmpeg/binaries"));
    v.push(String::from_str(roaming).concat("/Python/Python310/site-packages/imageio_ffmpeg/binaries"));
    v.push(String::from_str(roaming).concat("/Python/Python39/site-packages/imageio_ffmpeg/binaries"));
    v
}

/// A filename denotes a transcoder binary inside a versioned install
/// directory: it starts with `ffmpeg` and ends with `.exe`, tolerating a
/// version or variant embedded between the two.
pub open spec fn is_ffmpeg_exe(s: Seq<char>) -> bool {
    has_prefix(s, "ffmpeg"@) && has_suffix(s, ".exe"@)
}

/// Whether `name` is a transcoder binary filename.
pub fn is_ffmpeg_exe_name(name: &str) -> (r: bool)
    ensures
        r == is_ffmpeg_exe(name@),
{
    starts_with(name, "ffmpeg") && ends_with(name, ".exe")
}

/// `d` is the first scanned directory whose listing holds a transcoder
/// binary.
pub open spec fn first_dir_with_match(ls: Seq<Vec<String>>, d: int) -> bool {
    &&& 0 <= d < ls.len()
    &&& listing_has_ffmpeg(ls[d]@)
    &&& forall|e: int| 0 <= e < d ==> !listing_has_ffmpeg(ls[e]@)
}

/// `m` is the first transcoder binary in a directory listing.
pub open spec fn first_match_in(names: Seq<String>, m: int) -> bool {
    &&& 0 <= m < names.len()
    &&& is_ffmpeg_exe(names[m]@)
    &&& forall|j: int| 0 <= j < m ==> !is_ffmpeg_exe(names[j]@)
}

/// Resolve the transcoder binary from gathered probe outcomes, mirroring the
/// search order: a PATH invocation probe first (its success yields the bare
/// command name, not a resolved path), then the fixed well-known locations,
/// then the versioned install directories whose listings were read —
/// first existing entry wins at every stage. Nothing found is not an error:
/// the transcoder is optional and its absence only degrades a feature.
pub fn find_ffmpeg_from(
    path_probe_ok: bool,
    fixed: &Vec<String>,
    fixed_hits: &Vec<bool>,
    scan_dirs: &Vec<String>,
    listings: &Vec<Vec<String>>,
) -> (r: Option<String>)
    requires
        fixed_hits@.len() == fixed@.len(),
        listings@.len() == scan_dirs@.len(),
    ensures
        path_probe_ok ==> (r matches Some(s) && s@ == "ffmpeg"@),
        !path_probe_ok ==> forall|i: int|
            first_hit_at(fixed_hits@, i) ==> (r matches Some(s) && s@ == fixed@[i]@),
        !path_probe_ok && no_hit(fixed_hits@) ==> forall|d: int, m: int|
            first_dir_with_match(listings@, d) && first_match_in(listings@[d]@, m) ==> (
            r matches Some(s) && s@ == scan_dirs@[d]@ + "/"@ + listings@[d]@[m]@),
        r is None <==> {
            &&& !path_probe_ok
            &&& no_hit(fixed_hits@)
            &&& forall|d: int| 0 <= d < listings@.len() ==> !listing_has_ffmpeg(listings@[d]@)
        },
{
    if path_probe_ok {
        return Some(String::from_str("ffmpeg"));
    }
    let chosen = select_existing(fixed_hits);
    match chosen {
        Some(i) => {
            let r = Some(fixed[i].clone());
            proof {
                assert forall|k: int| first_hit_at(fixed_hits@, k) implies k == i as int by {
                    if k < i as int {
                        assert(!fixed_hits@[k]);
                    }
                    if (i as int) < k {
                        assert(!fixed_hits@[i as int]);
                    }
                }
            }
            return r;
        },
        None => {},
    }
    let mut d: usize = 0;
    while d < listings.len()
        invariant
            d <= listings@.len(),
            listings@.len() == scan_dirs@.len(),
            !path_probe_ok,
            no_hit(fixed_hits@),
            forall|e: int| 0 <= e < d ==> !listing_has_ffmpeg(#[trigger] listings@[e]@),
        decreases listings@.len() - d,
    {
        match pick_ffmpeg_name(&listings[d]) {
            Some(m) => {
                let r = Some(
                    String::from_str(scan_dirs[d].as_str()).concat("/").concat(
                        listings[d][m].as_str(),
                    ),
                );
                proof {
                    assert(is_ffmpeg_exe(listings@[d as int]@[m as int]@));
                    assert(listing_has_ffmpeg(listings@[d as int]@));
                    assert forall|d2: int, m2: int|
                        first_dir_with_match(listings@, d2) && first_match_in(
                            listings@[d2]@,
                            m2,
                        ) implies d2 == d as int && m2 == m as int by {
                        if d2 < d as int {
                            assert(!listing_has_ffmpeg(listings@[d2]@));
                        }
                        if (d as int) < d2 {
                            assert(!listing_has_ffmpeg(listings@[d as int]@));
                        }
                        if m2 < m as int {
                            assert(!is_ffmpeg_exe(listings@[d as int]@[m2]@));
                        }
                        if (m as int) < m2 {
                            assert(!is_ffmpeg_exe(listings@[d as int]@[m as int]@));
                        }
                    }
                }
                return r;
            },
            None => {},
        }
        d = d + 1;
    }
    None
}

/// Some entry of a directory listing is a transcoder binary.
pub open spec fn listing_has_ffmpeg(names: Seq<String>) -> bool {
    exists|j: int| 0 <= j < names.len() && is_ffmpeg_exe(names[j]@)
}

/// The first entry of a directory listing that is a transcoder binary.
pub fn pick_ffmpeg_name(names: &Vec<String>) -> (r: Option<usize>)
    ensures
        r matches Some(i) ==> {
            &&& 0 <= i < names@.len()
            &&& is_ffmpeg_exe(names@[i as int]@)
            &&& forall|j: int| 0 <= j < i ==> !is_ffmpeg_exe(names@[j]@)
        },
        r is None ==> !listing_has_ffmpeg(names@),
{
    let mut i: usize = 0;
    while i < names.len()
        invariant
            i <= names@.len(),
            forall|j: int| 0 <= j < i ==> !is_ffmpeg_exe(names@[j]@),
        decreases names@.len() - i,
    {
        if is_ffmpeg_exe_name(names[i].as_str()) {
            return Some(i);
        }
        i = i + 1;
    }
    None
}

} // verus!
