//! Where the shell looks for the Node.js executable and for the launcher
//! script, and in what order. Paths are described relative to anchors
//! (the resource directory, the source directory, an entry of the nvm
//! versions directory, or a fixed absolute path) that the runtime resolves.

use vstd::prelude::*;
use crate::text::{opt_view, trim, trimmed};

verus! {

/// The operating system the shell runs on.
#[derive(Clone, Copy, Debug, PartialEq, Eq, Structural)]
pub enum Platform {
    MacOs,
    Windows,
    Linux,
    Other,
}

/// What a path is relative to.
#[derive(Clone, Copy, Debug, PartialEq, Eq)]
pub enum Anchor {
    /// The application's resource directory.
    ResourceDir,
    /// The directory of the shell's own sources (development builds).
    ManifestDir,
    /// An absolute path.
    Fixed(&'static str),
    /// The entry with this index among those listed in the nvm versions
    /// directory (`~/.nvm/versions/node`).
    NvmEntry(usize),
}

pub enum AnchorView {
    ResourceDir,
    ManifestDir,
    Fixed(Seq<char>),
    NvmEntry(nat),
}

impl View for Anchor {
    type V = AnchorView;

    open spec fn view(&self) -> AnchorView {
        match self {
            Anchor::ResourceDir => AnchorView::ResourceDir,
            Anchor::ManifestDir => AnchorView::ManifestDir,
            Anchor::Fixed(p) => AnchorView::Fixed(p@),
            Anchor::NvmEntry(i) => AnchorView::NvmEntry(*i as nat),
        }
    }
}

/// A path: an anchor joined with the segments in order.
#[derive(Clone, Debug)]
pub struct PathSpec {
    pub anchor: Anchor,
    pub segments: Vec<&'static str>,
}

pub struct PathView {
    pub anchor: AnchorView,
    pub segments: Seq<Seq<char>>,
}

pub open spec fn strs_view(v: Seq<&'static str>) -> Seq<Seq<char>> {
    Seq::new(v.len(), |i: int| v[i]@)
}

impl View for PathSpec {
    type V = PathView;

    open spec fn view(&self) -> PathView {
        PathView { anchor: self.anchor@, segments: strs_view(self.segments@) }
    }
}

/// A place where Node.js may be found.
#[derive(Clone, Debug)]
pub enum NodeCandidate {
    /// A file that must exist and run.
    File(PathSpec),
    /// A command name looked up on `PATH`, which must run.
    Command(&'static str),
}

pub enum CandidateView {
    File(PathView),
    Command(Seq<char>),
}

impl View for NodeCandidate {
    type V = CandidateView;

    open spec fn view(&self) -> CandidateView {
        match self {
            NodeCandidate::File(p) => CandidateView::File(p@),
            NodeCandidate::Command(c) => CandidateView::Command(c@),
        }
    }
}

pub open spec fn candidates_view(v: Seq<NodeCandidate>) -> Seq<CandidateView> {
    Seq::new(v.len(), |i: int| v[i]@)
}

pub open spec fn paths_view(v: Seq<PathSpec>) -> Seq<PathView> {
    Seq::new(v.len(), |i: int| v[i]@)
}

/// The name of the Node.js executable on the platform.
pub open spec fn node_name_of(platform: Platform) -> Seq<char> {
    match platform {
        Platform::Windows => "node.exe"@,
        _ => "node"@,
    }
}

pub fn node_binary_name(platform: Platform) -> (r: &'static str)
    ensures
        r@ == node_name_of(platform),
{
    match platform {
        Platform::Windows => "node.exe",
        _ => "node",
    }
}

pub open spec fn at(anchor: AnchorView, segments: Seq<Seq<char>>) -> PathView {
    PathView { anchor, segments }
}

/// The directories that may hold bundled resources: the `_up_` layout that
/// current bundles use, then the resource directory itself; none when the
/// resource directory is unknown.
pub open spec fn resource_bases_of(has_resource_dir: bool) -> Seq<PathView> {
    if has_resource_dir {
        seq![at(AnchorView::ResourceDir, seq!["_up_"@]), at(AnchorView::ResourceDir, seq![])]
    } else {
        seq![]
    }
}

pub fn resource_bases(has_resource_dir: bool) -> (r: Vec<PathSpec>)
    ensures
        paths_view(r@) == resource_bases_of(has_resource_dir),
{
    let mut v: Vec<PathSpec> = Vec::new();
    if has_resource_dir {
        let mut up: Vec<&'static str> = Vec::new();
        up.push("_up_");
        v.push(PathSpec { anchor: Anchor::ResourceDir, segments: up });
        v.push(PathSpec { anchor: Anchor::ResourceDir, segments: Vec::new() });
        assert(strs_view(v@[0].segments@) =~= seq!["_up_"@]);
        assert(strs_view(v@[1].segments@) =~= Seq::<Seq<char>>::empty());
    }
    assert(paths_view(v@) =~= resource_bases_of(has_resource_dir));
    v
}


/// A copy of Node.js bundled with the app: `binaries/<name>`, then `<name>`,
/// under each resource base in turn.
pub open spec fn bundled_of(platform: Platform, has_resource_dir: bool) -> Seq<CandidateView> {
    let n = node_name_of(platform);
    if has_resource_dir {
        seq![
            CandidateView::File(at(AnchorView::ResourceDir, seq!["_up_"@, "binaries"@, n])),
            CandidateView::File(at(AnchorView::ResourceDir, seq!["_up_"@, n])),
            CandidateView::File(at(AnchorView::ResourceDir, seq!["binaries"@, n])),
            CandidateView::File(at(AnchorView::ResourceDir, seq![n])),
        ]
    } else {
        seq![]
    }
}

/// Node.js on `PATH`: the platform's executable name, `node`, `nodejs`.
pub open spec fn path_commands_of(platform: Platform) -> Seq<CandidateView> {
    seq![
        CandidateView::Command(node_name_of(platform)),
        CandidateView::Command("node"@),
        CandidateView::Command("nodejs"@),
    ]
}

/// Usual install locations, for GUI sessions whose `PATH` lacks the user's
/// and package managers' directories. On macOS: Homebrew for Intel and for
/// Apple silicon, then the nvm version with the highest version number, if any.
pub open spec fn common_paths_of(platform: Platform, nvm_latest: Option<usize>) -> Seq<CandidateView> {
    match platform {
        Platform::MacOs => seq![
            CandidateView::File(at(AnchorView::Fixed("/usr/local/bin/node"@), seq![])),
            CandidateView::File(at(AnchorView::Fixed("/opt/homebrew/bin/node"@), seq![])),
        ] + match nvm_latest {
            Some(i) => seq![CandidateView::File(at(AnchorView::NvmEntry(i as nat), seq!["bin/node"@]))],
            None => seq![],
        },
        Platform::Windows => seq![
            CandidateView::File(at(AnchorView::Fixed("C:\\Program Files\\nodejs\\node.exe"@), seq![])),
            CandidateView::File(
                at(AnchorView::Fixed("C:\\Program Files (x86)\\nodejs\\node.exe"@), seq![]),
            ),
        ],
        Platform::Linux => seq![
            CandidateView::File(at(AnchorView::Fixed("/usr/local/bin/node"@), seq![])),
        ],
        Platform::Other => seq![],
    }
}

/// The order in which Node.js is looked for, once `DSH_NODE_BIN` named none:
/// bundled copies, then `PATH`, then the usual install locations.
pub open spec fn node_plan_of(platform: Platform, has_resource_dir: bool, nvm_latest: Option<usize>) -> Seq<CandidateView> {
    bundled_of(platform, has_resource_dir) + path_commands_of(platform) + common_paths_of(
        platform,
        nvm_latest,
    )
}

fn file(anchor: Anchor, segments: Vec<&'static str>) -> (r: NodeCandidate)
    ensures
        r@ == CandidateView::File(PathView { anchor: anchor@, segments: strs_view(segments@) }),
{
    NodeCandidate::File(PathSpec { anchor, segments })
}

fn segments1(a: &'static str) -> (r: Vec<&'static str>)
    ensures
        strs_view(r@) == seq![a@],
{
    let mut v: Vec<&'static str> = Vec::new();
    v.push(a);
    assert(strs_view(v@) =~= seq![a@]);
    v
}

fn segments2(a: &'static str, b: &'static str) -> (r: Vec<&'static str>)
    ensures
        strs_view(r@) == seq![a@, b@],
{
    let mut v: Vec<&'static str> = Vec::new();
    v.push(a);
    v.push(b);
    assert(strs_view(v@) =~= seq![a@, b@]);
    v
}

fn segments3(a: &'static str, b: &'static str, c: &'static str) -> (r: Vec<&'static str>)
    ensures
        strs_view(r@) == seq![a@, b@, c@],
{
    let mut v: Vec<&'static str> = Vec::new();
    v.push(a);
    v.push(b);
    v.push(c);
    assert(strs_view(v@) =~= seq![a@, b@, c@]);
    v
}

fn no_segments() -> (r: Vec<&'static str>)
    ensures
        strs_view(r@) == Seq::<Seq<char>>::empty(),
{
    let v: Vec<&'static str> = Vec::new();
    assert(strs_view(v@) =~= Seq::<Seq<char>>::empty());
    v
}

fn push_candidate(v: &mut Vec<NodeCandidate>, c: NodeCandidate)
    ensures
        candidates_view(final(v)@) == candidates_view(old(v)@).push(c@),
{
    v.push(c);
    assert(candidates_view(v@) =~= candidates_view(old(v)@).push(c@));
}

/// The candidates for Node.js in the order they are tried, once
/// `DSH_NODE_BIN` named none. `has_resource_dir` tells whether the resource
/// directory is known; `nvm_latest` is the index of the nvm version to try,
/// which only macOS consults.
pub fn node_search_plan(platform: Platform, has_resource_dir: bool, nvm_latest: Option<usize>) -> (r: Vec<NodeCandidate>)
    ensures
        candidates_view(r@) == node_plan_of(platform, has_resource_dir, nvm_latest),
{
    let name = node_binary_name(platform);
    let mut v: Vec<NodeCandidate> = Vec::new();
    if has_resource_dir {
        push_candidate(&mut v, file(Anchor::ResourceDir, segments3("_up_", "binaries", name)));
        push_candidate(&mut v, file(Anchor::ResourceDir, segments2("_up_", name)));
        push_candidate(&mut v, file(Anchor::ResourceDir, segments2("binaries", name)));
        push_candidate(&mut v, file(Anchor::ResourceDir, segments1(name)));
    }
    assert(candidates_view(v@) =~= bundled_of(platform, has_resource_dir));
    let ghost bundled = candidates_view(v@);
    push_candidate(&mut v, NodeCandidate::Command(name));
    push_candidate(&mut v, NodeCandidate::Command("node"));
    push_candidate(&mut v, NodeCandidate::Command("nodejs"));
    assert(candidates_view(v@) =~= bundled + path_commands_of(platform));
    let ghost before_common = candidates_view(v@);
    match platform {
        Platform::MacOs => {
            push_candidate(&mut v, file(Anchor::Fixed("/usr/local/bin/node"), no_segments()));
            push_candidate(&mut v, file(Anchor::Fixed("/opt/homebrew/bin/node"), no_segments()));
            if let Some(i) = nvm_latest {
                push_candidate(&mut v, file(Anchor::NvmEntry(i), segments1("bin/node")));
            }
        },
        Platform::Windows => {
            push_candidate(
                &mut v,
                file(Anchor::Fixed("C:\\Program Files\\nodejs\\node.exe"), no_segments()),
            );
            push_candidate(
                &mut v,
                file(Anchor::Fixed("C:\\Program Files (x86)\\nodejs\\node.exe"), no_segments()),
            );
        },
        Platform::Linux => {
            push_candidate(&mut v, file(Anchor::Fixed("/usr/local/bin/node"), no_segments()));
        },
        Platform::Other => {},
    }
    assert(candidates_view(v@) =~= before_common + common_paths_of(platform, nvm_latest));
    v
}


/// Where the launcher script may lie in a bundle: `server/launch-dsh.js`
/// under each resource base in turn.
pub open spec fn launcher_candidates_of(has_resource_dir: bool) -> Seq<PathView> {
    if has_resource_dir {
        seq![
            at(AnchorView::ResourceDir, seq!["_up_"@, "server"@, "launch-dsh.js"@]),
            at(AnchorView::ResourceDir, seq!["server"@, "launch-dsh.js"@]),
        ]
    } else {
        seq![]
    }
}

/// The launcher script in the source tree, used when no bundled one exists.
pub open spec fn launcher_fallback_of() -> PathView {
    at(AnchorView::ManifestDir, seq![".."@, "server"@, "launch-dsh.js"@])
}

/// The bundled places of the launcher script, in the order they are checked.
pub fn launcher_candidates(has_resource_dir: bool) -> (r: Vec<PathSpec>)
    ensures
        paths_view(r@) == launcher_candidates_of(has_resource_dir),
{
    let mut v: Vec<PathSpec> = Vec::new();
    if has_resource_dir {
        v.push(
            PathSpec {
                anchor: Anchor::ResourceDir,
                segments: segments3("_up_", "server", "launch-dsh.js"),
            },
        );
        v.push(PathSpec { anchor: Anchor::ResourceDir, segments: segments2("server", "launch-dsh.js") });
    }
    assert(paths_view(v@) =~= launcher_candidates_of(has_resource_dir));
    v
}

/// The launcher script of a development build.
pub fn launcher_fallback() -> (r: PathSpec)
    ensures
        r@ == launcher_fallback_of(),
{
    PathSpec { anchor: Anchor::ManifestDir, segments: segments3("..", "server", "launch-dsh.js") }
}

/// The executable named by `DSH_NODE_BIN`: its trimmed value when that is not empty.
pub open spec fn node_override_of(value: Option<Seq<char>>) -> Option<Seq<char>> {
    match value {
        Some(v) => if trimmed(v).len() > 0 {
            Some(trimmed(v))
        } else {
            None
        },
        None => None,
    }
}

/// The executable that `DSH_NODE_BIN` (`None` when unset or not Unicode)
/// names, which is used as it is, without probing.
pub fn node_override(env_value: Option<&str>) -> (r: Option<&str>)
    ensures
        opt_view(r) == node_override_of(opt_view(env_value)),
{
    match env_value {
        Some(v) => {
            let t = trim(v);
            if !t.is_empty() {
                Some(t)
            } else {
                None
            }
        },
        None => None,
    }
}


/// Lexicographic order of byte strings, as file names compare.
pub open spec fn bytes_le(a: Seq<u8>, b: Seq<u8>) -> bool
    decreases a.len(),
{
    if a.len() == 0 {
        true
    } else if b.len() == 0 {
        false
    } else if a[0] != b[0] {
        a[0] < b[0]
    } else {
        bytes_le(a.drop_first(), b.drop_first())
    }
}

proof fn lemma_bytes_le_total(a: Seq<u8>, b: Seq<u8>)
    ensures
        bytes_le(a, b) || bytes_le(b, a),
    decreases a.len(),
{
    if a.len() > 0 && b.len() > 0 && a[0] == b[0] {
        lemma_bytes_le_total(a.drop_first(), b.drop_first());
    }
}

proof fn lemma_bytes_le_trans(a: Seq<u8>, b: Seq<u8>, c: Seq<u8>)
    requires
        bytes_le(a, b),
        bytes_le(b, c),
    ensures
        bytes_le(a, c),
    decreases a.len(),
{
    if a.len() > 0 && b.len() > 0 && c.len() > 0 && a[0] == b[0] && b[0] == c[0] {
        lemma_bytes_le_trans(a.drop_first(), b.drop_first(), c.drop_first());
    }
}

/// Whether `a` sorts before or equal to `b`.
pub fn bytes_less_eq(a: &Vec<u8>, b: &Vec<u8>) -> (r: bool)
    ensures
        r == bytes_le(a@, b@),
{
    let mut i: usize = 0;
    assert(a@.subrange(0, a.len() as int) =~= a@);
    assert(b@.subrange(0, b.len() as int) =~= b@);
    while i < a.len() && i < b.len() && a[i] == b[i]
        invariant
            i <= a.len(),
            i <= b.len(),
            bytes_le(a@, b@) == bytes_le(a@.subrange(i as int, a.len() as int), b@.subrange(i as int, b.len() as int)),
        decreases a.len() - i,
    {
        assert(a@.subrange(i as int, a.len() as int).drop_first() =~= a@.subrange(i + 1, a.len() as int));
        assert(b@.subrange(i as int, b.len() as int).drop_first() =~= b@.subrange(i + 1, b.len() as int));
        i += 1;
    }
    if i == a.len() {
        true
    } else if i == b.len() {
        false
    } else {
        a[i] < b[i]
    }
}

/// The entry that sorting the listed names as byte strings and taking the
/// last one picks: one that no other name sorts after, and the last such in
/// the listing.
pub open spec fn is_last_sorted(names: Seq<Seq<u8>>, i: int) -> bool {
    &&& 0 <= i < names.len()
    &&& forall|j: int| 0 <= j < names.len() ==> bytes_le(#[trigger] names[j], names[i])
    &&& forall|j: int| i < j < names.len() ==> !bytes_le(names[i], #[trigger] names[j])
}

pub open spec fn names_view(names: Seq<Vec<u8>>) -> Seq<Seq<u8>> {
    Seq::new(names.len(), |i: int| names[i]@)
}

/// The index of the name that sorts last as a byte string (the last such in
/// the listing); `None` when there are no names.
pub fn last_sorted(names: &Vec<Vec<u8>>) -> (r: Option<usize>)
    ensures
        match r {
            Some(i) => is_last_sorted(names_view(names@), i as int),
            None => names.len() == 0,
        },
{
    if names.len() == 0 {
        return None;
    }
    let ghost view = names_view(names@);
    let mut best: usize = 0;
    let mut i: usize = 1;
    proof {
        lemma_bytes_le_total(view[0], view[0]);
    }
    while i < names.len()
        invariant
            view == names_view(names@),
            1 <= i <= names.len(),
            best < i,
            forall|j: int| 0 <= j < i ==> bytes_le(#[trigger] view[j], view[best as int]),
            forall|j: int| best < j < i ==> !bytes_le(view[best as int], #[trigger] view[j]),
        decreases names.len() - i,
    {
        if bytes_less_eq(&names[best], &names[i]) {
            assert forall|j: int| 0 <= j < i + 1 implies bytes_le(#[trigger] view[j], view[i as int]) by {
                if j < i {
                    lemma_bytes_le_trans(view[j], view[best as int], view[i as int]);
                }
                lemma_bytes_le_total(view[j], view[j]);
            }
            best = i;
        } else {
            proof {
                lemma_bytes_le_total(view[best as int], view[i as int]);
            }
        }
        i += 1;
    }
    Some(best)
}

/// A version number: major, minor, patch.
pub type Version = (u64, u64, u64);

pub open spec fn is_digit_byte(b: u8) -> bool {
    0x30 <= b <= 0x39
}

/// The value of a string of decimal digit bytes.
pub open spec fn digits_value_of(s: Seq<u8>) -> nat
    decreases s.len(),
{
    if s.len() == 0 {
        0
    } else {
        digits_value_of(s.drop_last()) * 10 + (s.last() - 0x30) as nat
    }
}

/// A version component: a non-empty run of decimal digits whose value fits in a `u64`.
pub open spec fn is_component(s: Seq<u8>) -> bool {
    &&& s.len() > 0
    &&& forall|k: int| 0 <= k < s.len() ==> is_digit_byte(#[trigger] s[k])
    &&& digits_value_of(s) <= u64::MAX
}

/// The index of the first `.` in `s` at or after `from`, or `s.len()` if none.
pub open spec fn dot_from(s: Seq<u8>, from: int) -> int
    decreases s.len() - from,
{
    if from < 0 || from >= s.len() {
        s.len() as int
    } else if s[from] == 0x2e {
        from
    } else {
        dot_from(s, from + 1)
    }
}

/// The version that an nvm directory name `v<major>.<minor>.<patch>` stands
/// for; `None` for any name of another form (or with a component beyond
/// `u64::MAX`).
pub open spec fn version_of(s: Seq<u8>) -> Option<Version> {
    let i = dot_from(s, 1);
    let j = dot_from(s, i + 1);
    if s.len() > 0 && s[0] == 0x76 && i < s.len() && j < s.len() && is_component(s.subrange(1, i))
        && is_component(s.subrange(i + 1, j)) && is_component(s.subrange(j + 1, s.len() as int)) {
        Some(
            (
                digits_value_of(s.subrange(1, i)) as u64,
                digits_value_of(s.subrange(i + 1, j)) as u64,
                digits_value_of(s.subrange(j + 1, s.len() as int)) as u64,
            ),
        )
    } else {
        None
    }
}

/// Version order: by major, then minor, then patch, each compared as a number.
pub open spec fn version_le(a: Version, b: Version) -> bool {
    a.0 < b.0 || (a.0 == b.0 && (a.1 < b.1 || (a.1 == b.1 && a.2 <= b.2)))
}

proof fn lemma_prefix_digits_le(s: Seq<u8>, k: int)
    requires
        0 <= k <= s.len(),
        forall|m: int| 0 <= m < s.len() ==> is_digit_byte(#[trigger] s[m]),
    ensures
        digits_value_of(s.subrange(0, k)) <= digits_value_of(s),
    decreases s.len(),
{
    if k < s.len() {
        assert(s.drop_last().subrange(0, k) =~= s.subrange(0, k));
        assert forall|m: int| 0 <= m < s.drop_last().len() implies is_digit_byte(
            #[trigger] s.drop_last()[m],
        ) by {
            assert(s.drop_last()[m] == s[m]);
        }
        lemma_prefix_digits_le(s.drop_last(), k);
    } else {
        assert(s.subrange(0, k) =~= s);
    }
}

/// Parses `s[from..to]` as a version component.
fn parse_component(s: &Vec<u8>, from: usize, to: usize) -> (r: Option<u64>)
    requires
        from <= to <= s.len(),
    ensures
        r == (if is_component(s@.subrange(from as int, to as int)) {
            Some(digits_value_of(s@.subrange(from as int, to as int)) as u64)
        } else {
            None
        }),
{
    let ghost seg = s@.subrange(from as int, to as int);
    if from == to {
        return None;
    }
    let mut acc: u64 = 0;
    let mut k: usize = from;
    assert(s@.subrange(from as int, from as int) =~= Seq::<u8>::empty());
    while k < to
        invariant
            from <= k <= to <= s.len(),
            seg == s@.subrange(from as int, to as int),
            acc == digits_value_of(s@.subrange(from as int, k as int)),
            forall|m: int| from <= m < k ==> is_digit_byte(#[trigger] s@[m]),
        decreases to - k,
    {
        let b = s[k];
        if b < 0x30 || b > 0x39 {
            assert(!is_digit_byte(seg[k - from]));
            return None;
        }
        let ghost prefix = s@.subrange(from as int, k + 1);
        assert(prefix.drop_last() =~= s@.subrange(from as int, k as int));
        let digit = (b - 0x30) as u64;
        let next = match acc.checked_mul(10) {
            Some(t) => t.checked_add(digit),
            None => None,
        };
        match next {
            Some(v) => {
                acc = v;
            },
            None => {
                proof {
                    assert(digits_value_of(prefix) > u64::MAX);
                    if forall|m: int| 0 <= m < seg.len() ==> is_digit_byte(#[trigger] seg[m]) {
                        assert(seg.subrange(0, k + 1 - from) =~= prefix);
                        lemma_prefix_digits_le(seg, k + 1 - from);
                    }
                }
                return None;
            },
        }
        k += 1;
    }
    assert(s@.subrange(from as int, k as int) =~= seg);
    assert forall|m: int| 0 <= m < seg.len() implies is_digit_byte(#[trigger] seg[m]) by {
        assert(seg[m] == s@[from + m]);
    }
    Some(acc)
}

/// The index of the first `.` in `s` at or after `from`, or `s.len()`.
fn find_dot(s: &Vec<u8>, from: usize) -> (r: usize)
    requires
        from <= s.len(),
    ensures
        r as int == dot_from(s@, from as int),
        from <= r <= s.len(),
{
    let mut k = from;
    while k < s.len() && s[k] != 0x2e
        invariant
            from <= k <= s.len(),
            dot_from(s@, from as int) == dot_from(s@, k as int),
        decreases s.len() - k,
    {
        k += 1;
    }
    k
}

/// The version an nvm directory name stands for, if it has the form
/// `v<major>.<minor>.<patch>`.
pub fn parse_version(s: &Vec<u8>) -> (r: Option<Version>)
    ensures
        r == version_of(s@),
{
    if s.len() == 0 || s[0] != 0x76 {
        return None;
    }
    let i = find_dot(s, 1);
    if i == s.len() {
        return None;
    }
    let j = find_dot(s, i + 1);
    if j == s.len() {
        return None;
    }
    let major = parse_component(s, 1, i);
    let minor = parse_component(s, i + 1, j);
    let patch = parse_component(s, j + 1, s.len());
    match (major, minor, patch) {
        (Some(a), Some(b), Some(c)) => Some((a, b, c)),
        _ => None,
    }
}

/// Whether version `a` is at most version `b`.
pub fn version_less_eq(a: Version, b: Version) -> (r: bool)
    ensures
        r == version_le(a, b),
{
    a.0 < b.0 || (a.0 == b.0 && (a.1 < b.1 || (a.1 == b.1 && a.2 <= b.2)))
}

/// Version order is the order on (major, minor, patch) compared component by
/// component: it is a total order, and a larger major, or an equal major and a
/// larger minor, or equal major and minor and a larger patch, makes a version
/// strictly greater.
pub proof fn lemma_version_order(a: Version, b: Version, c: Version)
    ensures
        version_le(a, a),
        version_le(a, b) || version_le(b, a),
        version_le(a, b) && version_le(b, a) ==> a == b,
        version_le(a, b) && version_le(b, c) ==> version_le(a, c),
        a.0 < b.0 ==> version_le(a, b) && !version_le(b, a),
        a.0 == b.0 && a.1 < b.1 ==> version_le(a, b) && !version_le(b, a),
        a.0 == b.0 && a.1 == b.1 && a.2 < b.2 ==> version_le(a, b) && !version_le(b, a),
{
}

/// Whether some listed name is a version directory name.
pub open spec fn has_version(names: Seq<Seq<u8>>) -> bool {
    exists|j: int| 0 <= j < names.len() && (#[trigger] version_of(names[j])) is Some
}

/// The nvm entry to use: among the names that are versions
/// (`v<major>.<minor>.<patch>`), the one with the highest version number,
/// comparing major, minor and patch as numbers (the last such in the listing
/// when several are equal). Names of another form are passed over; when no
/// name is a version, the name that sorts last as a byte string is taken.
pub open spec fn is_latest(names: Seq<Seq<u8>>, i: int) -> bool {
    if has_version(names) {
        &&& 0 <= i < names.len()
        &&& version_of(names[i]) is Some
        &&& forall|j: int|
            0 <= j < names.len() && (#[trigger] version_of(names[j])) is Some ==> version_le(
                version_of(names[j])->0,
                version_of(names[i])->0,
            )
        &&& forall|j: int|
            i < j < names.len() && (#[trigger] version_of(names[j])) is Some ==> !version_le(
                version_of(names[i])->0,
                version_of(names[j])->0,
            )
    } else {
        is_last_sorted(names, i)
    }
}

/// The chosen nvm entry has the highest version among the version names: no
/// listed version is greater in the (major, minor, patch) order, and every
/// other listed version with the same number sits earlier in the listing.
pub proof fn lemma_latest_is_highest(names: Seq<Seq<u8>>, i: int, j: int)
    requires
        has_version(names),
        is_latest(names, i),
        0 <= j < names.len(),
        version_of(names[j]) is Some,
    ensures
        version_of(names[i]) is Some,
        ({
            let vi = version_of(names[i])->0;
            let vj = version_of(names[j])->0;
            &&& !(vj.0 > vi.0)
            &&& !(vj.0 == vi.0 && vj.1 > vi.1)
            &&& !(vj.0 == vi.0 && vj.1 == vi.1 && vj.2 > vi.2)
            &&& (vj == vi && j != i ==> j < i)
        }),
{
    let vi = version_of(names[i])->0;
    let vj = version_of(names[j])->0;
    lemma_version_order(vi, vj, vj);
    if j > i {
        assert(!version_le(vi, vj));
    }
}

/// The index of the nvm version directory to try (see `is_latest`): the
/// highest version among the listed names (as bytes). `None` when there are
/// no names.
pub fn latest_version(names: &Vec<Vec<u8>>) -> (r: Option<usize>)
    ensures
        match r {
            Some(i) => is_latest(names_view(names@), i as int),
            None => names.len() == 0,
        },
{
    let ghost view = names_view(names@);
    let mut best: Option<(usize, Version)> = None;
    let mut i: usize = 0;
    while i < names.len()
        invariant
            view == names_view(names@),
            i <= names.len(),
            match best {
                None => forall|j: int| 0 <= j < i ==> (#[trigger] version_of(view[j])) is None,
                Some((b, v)) => {
                    &&& b < i
                    &&& version_of(view[b as int]) == Some(v)
                    &&& forall|j: int|
                        0 <= j < i && (#[trigger] version_of(view[j])) is Some ==> version_le(
                            version_of(view[j])->0,
                            v,
                        )
                    &&& forall|j: int|
                        b < j < i && (#[trigger] version_of(view[j])) is Some ==> !version_le(
                            v,
                            version_of(view[j])->0,
                        )
                },
            },
        decreases names.len() - i,
    {
        let parsed = parse_version(&names[i]);
        assert(view[i as int] == names@[i as int]@);
        if let Some(v) = parsed {
            match best {
                None => {
                    best = Some((i, v));
                },
                Some((_, bv)) => {
                    if version_less_eq(bv, v) {
                        best = Some((i, v));
                    }
                },
            }
        }
        i += 1;
    }
    match best {
        Some((b, _)) => {
            assert(has_version(view)) by {
                assert(version_of(view[b as int]) is Some);
            }
            Some(b)
        },
        None => {
            assert(!has_version(view));
            last_sorted(names)
        },
    }
}

/// The path `base` joined with further segments.
pub open spec fn join_path(base: PathView, segments: Seq<Seq<char>>) -> PathView {
    PathView { anchor: base.anchor, segments: base.segments + segments }
}

/// Bundled Node.js and the bundled launcher are looked for under the same
/// resource bases, in the same order: for each base, `binaries/<node>` and
/// `<node>`, and `server/launch-dsh.js`.
pub proof fn lemma_bundle_layouts(platform: Platform, has_resource_dir: bool)
    ensures
        bundled_of(platform, has_resource_dir).len() == 2 * resource_bases_of(has_resource_dir).len(),
        launcher_candidates_of(has_resource_dir).len() == resource_bases_of(has_resource_dir).len(),
        forall|k: int|
            0 <= k < resource_bases_of(has_resource_dir).len() ==> {
                &&& bundled_of(platform, has_resource_dir)[2 * k] == CandidateView::File(
                    join_path(
                        #[trigger] resource_bases_of(has_resource_dir)[k],
                        seq!["binaries"@, node_name_of(platform)],
                    ),
                )
                &&& bundled_of(platform, has_resource_dir)[2 * k + 1] == CandidateView::File(
                    join_path(resource_bases_of(has_resource_dir)[k], seq![node_name_of(platform)]),
                )
                &&& launcher_candidates_of(has_resource_dir)[k] == join_path(
                    resource_bases_of(has_resource_dir)[k],
                    seq!["server"@, "launch-dsh.js"@],
                )
            },
{
    let n = node_name_of(platform);
    assert(seq!["_up_"@] + seq!["binaries"@, n] =~= seq!["_up_"@, "binaries"@, n]);
    assert(seq!["_up_"@] + seq![n] =~= seq!["_up_"@, n]);
    assert(Seq::<Seq<char>>::empty() + seq!["binaries"@, n] =~= seq!["binaries"@, n]);
    assert(Seq::<Seq<char>>::empty() + seq![n] =~= seq![n]);
    assert(seq!["_up_"@] + seq!["server"@, "launch-dsh.js"@] =~= seq![
        "_up_"@,
        "server"@,
        "launch-dsh.js"@,
    ]);
    assert(Seq::<Seq<char>>::empty() + seq!["server"@, "launch-dsh.js"@] =~= seq![
        "server"@,
        "launch-dsh.js"@,
    ]);
}

/// How the Node.js executable is to be found.
pub enum NodeResolution<'a> {
    /// Use this executable, as `DSH_NODE_BIN` names it.
    Explicit(&'a str),
    /// Check the candidates in order and use the first that passes; use
    /// `fallback` by name when none does.
    Search { candidates: Vec<NodeCandidate>, fallback: &'static str },
}

/// The order in which the Node.js executable is resolved: `DSH_NODE_BIN`,
/// then a bundled copy in the resource directory, then `PATH`, then the usual
/// install locations, and at last the bare executable name.
pub fn resolve_node<'a>(
    platform: Platform,
    env_value: Option<&'a str>,
    has_resource_dir: bool,
    nvm_latest: Option<usize>,
) -> (r: NodeResolution<'a>)
    ensures
        match node_override_of(opt_view(env_value)) {
            Some(p) => r matches NodeResolution::Explicit(e) && e@ == p,
            None => r matches NodeResolution::Search { candidates, fallback } && candidates_view(
                candidates@,
            ) == node_plan_of(platform, has_resource_dir, nvm_latest) && fallback@ == node_name_of(
                platform,
            ),
        },
{
    match node_override(env_value) {
        Some(p) => NodeResolution::Explicit(p),
        None => NodeResolution::Search {
            candidates: node_search_plan(platform, has_resource_dir, nvm_latest),
            fallback: node_binary_name(platform),
        },
    }
}

} // verus!
