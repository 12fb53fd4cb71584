use crate::text::{after_first, chars_of, decimal, decimal_string, find_first, join, join_strings};
use vstd::prelude::*;
use vstd::string::*;

verus! {

/// Query parameters of an info request. That `json` is present asks for the structured form.
#[derive(Clone, Debug, PartialEq, Eq)]
pub struct Param {
    pub json: Option<String>,
}

impl Param {
    /// Whether the caller asked for the structured form rather than the text form.
    pub fn wants_json(&self) -> (b: bool)
        ensures
            b == self.json is Some,
    {
        self.json.is_some()
    }
}

/// What the store reports of a valid path. Paths are full store paths.
#[derive(Clone, Debug, PartialEq, Eq)]
pub struct PathInfo {
    pub drv: Option<String>,
    pub narhash: String,
    pub size: u64,
    pub refs: Vec<String>,
    pub sigs: Vec<String>,
    pub ca: Option<String>,
}

pub struct PathInfoView {
    pub drv: Option<Seq<char>>,
    pub narhash: Seq<char>,
    pub size: u64,
    pub refs: Seq<Seq<char>>,
    pub sigs: Seq<Seq<char>>,
    pub ca: Option<Seq<char>>,
}

impl View for PathInfo {
    type V = PathInfoView;

    open spec fn view(&self) -> PathInfoView {
        PathInfoView {
            drv: self.drv.deep_view(),
            narhash: self.narhash@,
            size: self.size,
            refs: self.refs.deep_view(),
            sigs: self.sigs.deep_view(),
            ca: self.ca.deep_view(),
        }
    }
}

/// The info record of a store path as it is served. References and deriver are file names, not
/// full paths.
#[derive(Clone, Debug, PartialEq, Eq)]
pub struct NarInfo {
    pub store_path: String,
    pub url: String,
    pub compression: String,
    pub nar_hash: String,
    pub nar_size: u64,
    pub references: Vec<String>,
    pub deriver: Option<String>,
    pub system: Option<String>,
    pub sigs: Vec<String>,
    pub ca: Option<String>,
}

pub struct NarInfoView {
    pub store_path: Seq<char>,
    pub url: Seq<char>,
    pub compression: Seq<char>,
    pub nar_hash: Seq<char>,
    pub nar_size: u64,
    pub references: Seq<Seq<char>>,
    pub deriver: Option<Seq<char>>,
    pub system: Option<Seq<char>>,
    pub sigs: Seq<Seq<char>>,
    pub ca: Option<Seq<char>>,
}

impl View for NarInfo {
    type V = NarInfoView;

    open spec fn view(&self) -> NarInfoView {
        NarInfoView {
            store_path: self.store_path@,
            url: self.url@,
            compression: self.compression@,
            nar_hash: self.nar_hash@,
            nar_size: self.nar_size,
            references: self.references.deep_view(),
            deriver: self.deriver.deep_view(),
            system: self.system.deep_view(),
            sigs: self.sigs.deep_view(),
            ca: self.ca.deep_view(),
        }
    }
}

/// What follows the last `/` of `path`, or all of `path` where it holds none.
pub open spec fn last_segment(path: Seq<char>) -> Seq<char>
    decreases path.len(),
{
    if path.len() == 0 || path.last() == '/' {
        Seq::empty()
    } else {
        last_segment(path.drop_last()).push(path.last())
    }
}

/// The final component of `path`. Separators and `.` components at the end are passed over;
/// there is no final component in an empty path, in a root, and where the path ends in `..`.
pub open spec fn file_name_of(path: Seq<char>) -> Option<Seq<char>>
    decreases path.len(),
{
    let name = last_segment(path);
    if path.len() == 0 {
        None
    } else if name.len() == 0 || name == seq!['.'] {
        if name.len() >= path.len() {
            None
        } else {
            file_name_of(path.take(path.len() - name.len() - 1))
        }
    } else if name == seq!['.', '.'] {
        None
    } else {
        Some(name)
    }
}

/// The final components of those of `paths` that have one, in the order of `paths`.
pub open spec fn file_names(paths: Seq<Seq<char>>) -> Seq<Seq<char>>
    decreases paths.len(),
{
    if paths.len() == 0 {
        Seq::empty()
    } else {
        let rest = file_names(paths.drop_last());
        match file_name_of(paths.last()) {
            Some(name) => rest.push(name),
            None => rest,
        }
    }
}

fn segment_start(chars: &Vec<char>, end: usize) -> (start: usize)
    requires
        end <= chars.len(),
    ensures
        start <= end,
        last_segment(chars@.take(end as int)) == chars@.subrange(start as int, end as int),
{
    let mut start = end;
    assert(chars@.subrange(end as int, end as int) =~= Seq::empty());
    while start > 0 && chars[start - 1] != '/'
        invariant
            start <= end <= chars.len(),
            last_segment(chars@.take(end as int)) == last_segment(chars@.take(start as int))
                + chars@.subrange(start as int, end as int),
        decreases start,
    {
        let ghost head = chars@.take(start as int);
        assert(head.last() == chars@[start - 1]);
        assert(head.drop_last() =~= chars@.take(start - 1));
        assert(last_segment(head.drop_last()).push(head.last()) + chars@.subrange(
            start as int,
            end as int,
        ) =~= last_segment(chars@.take(start - 1)) + chars@.subrange(start - 1, end as int));
        start -= 1;
    }
    proof {
        let head = chars@.take(start as int);
        if start > 0 {
            assert(head.last() == chars@[start - 1]);
        }
        assert(last_segment(head) =~= Seq::empty());
        assert(last_segment(head) + chars@.subrange(start as int, end as int) =~= chars@.subrange(
            start as int,
            end as int,
        ));
    }
    start
}

/// The final component of `path`, by which a store path is named in a record.
pub fn extract_filename(path: &str) -> (name: Option<String>)
    ensures
        name.deep_view() == file_name_of(path@),
{
    let chars = chars_of(path);
    let mut end: usize = chars.len();
    assert(path@.take(end as int) =~= path@);
    loop
        invariant
            chars@ == path@,
            end <= chars.len(),
            file_name_of(path@) == file_name_of(path@.take(end as int)),
        decreases end,
    {
        if end == 0 {
            return None;
        }
        let start = segment_start(&chars, end);
        let ghost head = path@.take(end as int);
        let ghost name = last_segment(head);
        assert(name.len() == end - start);
        if end - start == 0 || (end - start == 1 && chars[start] == '.') {
            assert(name.len() == 0 || name =~= seq!['.']);
            if start == 0 {
                return None;
            }
            assert(head.take(head.len() - name.len() - 1) =~= path@.take(start - 1));
            end = start - 1;
        } else if end - start == 2 && chars[start] == '.' && chars[start + 1] == '.' {
            assert(name =~= seq!['.', '.']);
            assert(name[0] == '.');
            return None;
        } else {
            assert(name != seq!['.']) by {
                if name == seq!['.'] {
                    assert(name.len() == 1);
                    assert(name[0] == '.');
                }
            }
            assert(name != seq!['.', '.']) by {
                if name == seq!['.', '.'] {
                    assert(name.len() == 2);
                    assert(name[0] == '.');
                    assert(name[1] == '.');
                }
            }
            let found = path.substring_char(start, end);
            return Some(String::from_str(found));
        }
    }
}

/// The final components of the paths that have one.
pub fn extract_filenames(paths: &Vec<String>) -> (names: Vec<String>)
    ensures
        names.deep_view() == file_names(paths.deep_view()),
{
    let mut names: Vec<String> = Vec::new();
    let mut i: usize = 0;
    assert(names.deep_view() =~= Seq::empty());
    while i < paths.len()
        invariant
            i <= paths.len(),
            names.deep_view() == file_names(paths.deep_view().take(i as int)),
        decreases paths.len() - i,
    {
        let ghost before = names.deep_view();
        let ghost upto = paths.deep_view().take(i + 1);
        assert(upto.drop_last() =~= paths.deep_view().take(i as int));
        assert(upto.last() == paths[i as int]@);
        match extract_filename(paths[i].as_str()) {
            Some(name) => {
                names.push(name);
                assert(names.deep_view() =~= before.push(name@));
            },
            None => {},
        }
        i += 1;
    }
    assert(paths.deep_view().take(i as int) =~= paths.deep_view());
    names
}

/// Where the archive of a path is fetched from, relative to the cache: the digest of its hash
/// names the archive, and the key by which the path was asked for is handed on. A hash without
/// a `:` has no digest to name the archive by, and the key stands in for it.
pub open spec fn url_of(nar_hash: Seq<char>, key: Seq<char>) -> Seq<char> {
    let digest = match after_first(nar_hash, ':') {
        Some(digest) => digest,
        None => key,
    };
    "nar/"@ + digest + ".nar?hash="@ + key
}

/// The record of `store_path`, asked for by `key`, made of what the store reported and the
/// build platform of its deriver where that was looked up. Where signing keys are configured,
/// `fresh` holds the signatures made with them, and the record carries exactly these; where
/// none is, `fresh` is `None` and the record carries the signatures that the store reported.
pub open spec fn narinfo_of(
    store_path: Seq<char>,
    key: Seq<char>,
    info: PathInfoView,
    system: Option<Seq<char>>,
    fresh: Option<Seq<Seq<char>>>,
) -> NarInfoView {
    NarInfoView {
        store_path,
        url: url_of(info.narhash, key),
        compression: "none"@,
        nar_hash: info.narhash,
        nar_size: info.size,
        references: file_names(info.refs),
        deriver: match info.drv {
            Some(drv) => file_name_of(drv),
            None => None,
        },
        system,
        sigs: match fresh {
            Some(sigs) => sigs,
            None => info.sigs,
        },
        ca: info.ca,
    }
}

/// The lines of the text form of a record, in order. A line stands for a field that has a
/// value: without references, deriver, platform, signatures or content address there is no
/// line for them.
pub open spec fn narinfo_lines(n: NarInfoView) -> Seq<Seq<char>> {
    seq![
        "StorePath: "@ + n.store_path,
        "URL: "@ + n.url,
        "Compression: "@ + n.compression,
        "FileHash: "@ + n.nar_hash,
        "FileSize: "@ + decimal(n.nar_size as nat),
        "NarHash: "@ + n.nar_hash,
        "NarSize: "@ + decimal(n.nar_size as nat),
    ] + (if n.references.len() > 0 {
        seq!["References: "@ + join(n.references, " "@)]
    } else {
        seq![]
    }) + (match n.deriver {
        Some(deriver) => seq!["Deriver: "@ + deriver],
        None => seq![],
    }) + (match n.system {
        Some(system) => seq!["System: "@ + system],
        None => seq![],
    }) + Seq::new(n.sigs.len(), |i: int| "Sig: "@ + n.sigs[i]) + (match n.ca {
        Some(ca) => seq!["CA: "@ + ca],
        None => seq![],
    })
}

/// The lines one after the other, each ended by a line feed.
pub open spec fn terminated(lines: Seq<Seq<char>>) -> Seq<char>
    decreases lines.len(),
{
    if lines.len() == 0 {
        Seq::empty()
    } else {
        terminated(lines.drop_last()) + lines.last() + seq!['\n']
    }
}

/// The text form of a record: its lines, then one empty line.
pub open spec fn narinfo_text(n: NarInfoView) -> Seq<char> {
    terminated(narinfo_lines(n)) + seq!['\n']
}

/// Computes the relative URL under which the archive of a path is served.
pub fn narinfo_url(nar_hash: &str, key: &str) -> (url: String)
    ensures
        url@ == url_of(nar_hash@, key@),
{
    let chars = chars_of(nar_hash);
    let colon = find_first(&chars, ':');
    let mut url = String::from_str("nar/");
    if colon < chars.len() {
        url.append(nar_hash.substring_char(colon + 1, chars.len()));
    } else {
        url.append(key);
    }
    url.append(".nar?hash=");
    url.append(key);
    url
}

impl NarInfo {
    /// Makes the record of `store_path` from what the store reported of it. `system` is the
    /// build platform of the deriver where it was looked up. `fresh` holds the signatures made
    /// with the configured keys, and is `None` where no key is configured.
    pub fn from_path_info(
        store_path: String,
        key: &str,
        info: PathInfo,
        system: Option<String>,
        fresh: Option<Vec<String>>,
    ) -> (record: NarInfo)
        ensures
            record@ == narinfo_of(store_path@, key@, info@, system.deep_view(), fresh.deep_view()),
    {
        let url = narinfo_url(info.narhash.as_str(), key);
        let references = extract_filenames(&info.refs);
        let deriver = match &info.drv {
            Some(drv) => extract_filename(drv.as_str()),
            None => None,
        };
        let sigs = match fresh {
            Some(sigs) => sigs,
            None => info.sigs,
        };
        NarInfo {
            store_path,
            url,
            compression: String::from_str("none"),
            nar_hash: info.narhash,
            nar_size: info.size,
            references,
            deriver,
            system,
            sigs,
            ca: info.ca,
        }
    }
}

fn push_line(out: &mut String, label: &str, value: &str, Ghost(lines): Ghost<Seq<Seq<char>>>)
    requires
        old(out)@ == terminated(lines),
    ensures
        final(out)@ == terminated(lines.push(label@ + value@)),
{
    proof {
        reveal_strlit("\n");
        assert(lines.push(label@ + value@).drop_last() =~= lines);
    }
    out.append(label);
    out.append(value);
    out.append("\n");
    assert(out@ =~= terminated(lines) + (label@ + value@) + seq!['\n']);
}

/// Renders a record in its text form: one line for each field that has a value, in the fixed
/// order of the fields, then one empty line.
pub fn format_narinfo_txt(narinfo: &NarInfo) -> (text: String)
    ensures
        text@ == narinfo_text(narinfo@),
{
    let ghost n = narinfo@;
    let size = decimal_string(narinfo.nar_size);
    let mut out = String::new();
    let ghost mut lines: Seq<Seq<char>> = Seq::empty();
    push_line(&mut out, "StorePath: ", narinfo.store_path.as_str(), Ghost(lines));
    proof {
        lines = lines.push("StorePath: "@ + n.store_path);
    }
    push_line(&mut out, "URL: ", narinfo.url.as_str(), Ghost(lines));
    proof {
        lines = lines.push("URL: "@ + n.url);
    }
    push_line(&mut out, "Compression: ", narinfo.compression.as_str(), Ghost(lines));
    proof {
        lines = lines.push("Compression: "@ + n.compression);
    }
    push_line(&mut out, "FileHash: ", narinfo.nar_hash.as_str(), Ghost(lines));
    proof {
        lines = lines.push("FileHash: "@ + n.nar_hash);
    }
    push_line(&mut out, "FileSize: ", size.as_str(), Ghost(lines));
    proof {
        lines = lines.push("FileSize: "@ + size@);
    }
    push_line(&mut out, "NarHash: ", narinfo.nar_hash.as_str(), Ghost(lines));
    proof {
        lines = lines.push("NarHash: "@ + n.nar_hash);
    }
    push_line(&mut out, "NarSize: ", size.as_str(), Ghost(lines));
    proof {
        lines = lines.push("NarSize: "@ + size@);
    }
    let ghost fixed = lines;
    if narinfo.references.len() > 0 {
        let references = join_strings(&narinfo.references, " ");
        push_line(&mut out, "References: ", references.as_str(), Ghost(lines));
        proof {
            lines = lines.push("References: "@ + references@);
        }
    }
    let ghost with_refs = lines;
    match &narinfo.deriver {
        Some(deriver) => {
            push_line(&mut out, "Deriver: ", deriver.as_str(), Ghost(lines));
            proof {
                lines = lines.push("Deriver: "@ + deriver@);
            }
        },
        None => {},
    }
    let ghost with_deriver = lines;
    match &narinfo.system {
        Some(system) => {
            push_line(&mut out, "System: ", system.as_str(), Ghost(lines));
            proof {
                lines = lines.push("System: "@ + system@);
            }
        },
        None => {},
    }
    let ghost with_system = lines;
    let ghost sig_lines = Seq::new(n.sigs.len(), |i: int| "Sig: "@ + n.sigs[i]);
    let mut i: usize = 0;
    assert(lines =~= with_system + sig_lines.take(0));
    while i < narinfo.sigs.len()
        invariant
            i <= narinfo.sigs.len(),
            n == narinfo@,
            sig_lines == Seq::new(n.sigs.len(), |i: int| "Sig: "@ + n.sigs[i]),
            lines == with_system + sig_lines.take(i as int),
            out@ == terminated(lines),
        decreases narinfo.sigs.len() - i,
    {
        push_line(&mut out, "Sig: ", narinfo.sigs[i].as_str(), Ghost(lines));
        proof {
            lines = lines.push("Sig: "@ + narinfo.sigs[i as int]@);
            assert(lines =~= with_system + sig_lines.take(i + 1));
        }
        i += 1;
    }
    assert(sig_lines.take(i as int) =~= sig_lines);
    match &narinfo.ca {
        Some(ca) => {
            push_line(&mut out, "CA: ", ca.as_str(), Ghost(lines));
            proof {
                lines = lines.push("CA: "@ + ca@);
            }
        },
        None => {},
    }
    proof {
        reveal_strlit("\n");
        assert(lines =~= narinfo_lines(n));
    }
    out.append("\n");
    out
}

/// Whether `c` does not occur in `s`.
pub open spec fn free_of(s: Seq<char>, c: char) -> bool {
    forall|i: int| 0 <= i < s.len() ==> s[i] != c
}

/// Whether no field of the record holds a line feed, so that each field fills one line.
pub open spec fn single_lined(n: NarInfoView) -> bool {
    &&& free_of(n.store_path, '\n')
    &&& free_of(n.url, '\n')
    &&& free_of(n.compression, '\n')
    &&& free_of(n.nar_hash, '\n')
    &&& forall|i: int| 0 <= i < n.references.len() ==> free_of(#[trigger] n.references[i], '\n')
    &&& n.deriver matches Some(deriver) ==> free_of(deriver, '\n')
    &&& n.system matches Some(system) ==> free_of(system, '\n')
    &&& forall|i: int| 0 <= i < n.sigs.len() ==> free_of(#[trigger] n.sigs[i], '\n')
    &&& n.ca matches Some(ca) ==> free_of(ca, '\n')
}

/// Whether `line` begins with the characters `a` and `b`.
pub open spec fn begins(line: Seq<char>, a: char, b: char) -> bool {
    line.len() >= 2 && line[0] == a && line[1] == b
}

/// Whether `line` begins like the line of a field that has a value in `n`. The first two
/// characters tell the optional fields from each other and from the rest.
spec fn of_present_field(n: NarInfoView, line: Seq<char>) -> bool {
    ||| begins(line, 'S', 't')
    ||| begins(line, 'U', 'R')
    ||| begins(line, 'C', 'o')
    ||| begins(line, 'F', 'i')
    ||| begins(line, 'N', 'a')
    ||| n.references.len() > 0 && begins(line, 'R', 'e')
    ||| n.deriver is Some && begins(line, 'D', 'e')
    ||| n.system is Some && begins(line, 'S', 'y')
    ||| n.sigs.len() > 0 && begins(line, 'S', 'i')
    ||| n.ca is Some && begins(line, 'C', 'A')
}

proof fn lemma_field_line(label: Seq<char>, value: Seq<char>)
    requires
        label.len() >= 2,
        label.last() == ' ',
    ensures
        begins(label + value, label[0], label[1]),
        (value.len() > 0 ==> value.last() != '\n') ==> (label + value).last() != '\n',
{
    let line = label + value;
    if value.len() > 0 {
        assert(line.last() == value.last());
    } else {
        assert(line =~= label);
    }
}

proof fn lemma_prefix_heads(label: Seq<char>, line: Seq<char>)
    requires
        label.len() >= 2,
        label.is_prefix_of(line),
    ensures
        begins(line, label[0], label[1]),
{
    let head = line.subrange(0, label.len() as int);
    assert(head[0] == line[0]);
    assert(head[1] == line[1]);
}

proof fn lemma_decimal_end(n: nat)
    ensures
        decimal(n).len() > 0,
        decimal(n).last() != '\n',
{
    if n < 10 {
        assert(decimal(n).last() == crate::text::digit(n));
    } else {
        assert(decimal(n).last() == crate::text::digit(n % 10));
    }
}

proof fn lemma_join_end(parts: Seq<Seq<char>>)
    requires
        forall|i: int| 0 <= i < parts.len() ==> free_of(#[trigger] parts[i], '\n'),
    ensures
        join(parts, " "@).len() > 0 ==> join(parts, " "@).last() != '\n',
{
    reveal_strlit(" ");
    let joined = join(parts, " "@);
    if parts.len() == 1 {
        assert(free_of(parts[0], '\n'));
    } else if parts.len() >= 2 {
        let last = parts.last();
        assert(free_of(last, '\n'));
        let head = join(parts.drop_last(), " "@) + " "@;
        assert(joined == head + last);
        if last.len() > 0 {
            assert(joined.last() == last.last());
        } else {
            assert(joined =~= head);
            assert(head.last() == ' ');
        }
    }
}

proof fn lemma_line_shape(n: NarInfoView, i: int)
    requires
        0 <= i < narinfo_lines(n).len(),
    ensures
        of_present_field(n, narinfo_lines(n)[i]),
        single_lined(n) ==> narinfo_lines(n)[i].last() != '\n',
{
    reveal_strlit("StorePath: ");
    reveal_strlit("URL: ");
    reveal_strlit("Compression: ");
    reveal_strlit("FileHash: ");
    reveal_strlit("FileSize: ");
    reveal_strlit("NarHash: ");
    reveal_strlit("NarSize: ");
    reveal_strlit("References: ");
    reveal_strlit("Deriver: ");
    reveal_strlit("System: ");
    reveal_strlit("Sig: ");
    reveal_strlit("CA: ");
    let size = decimal(n.nar_size as nat);
    lemma_decimal_end(n.nar_size as nat);
    let fixed = seq![
        "StorePath: "@ + n.store_path,
        "URL: "@ + n.url,
        "Compression: "@ + n.compression,
        "FileHash: "@ + n.nar_hash,
        "FileSize: "@ + size,
        "NarHash: "@ + n.nar_hash,
        "NarSize: "@ + size,
    ];
    let references: Seq<Seq<char>> = if n.references.len() > 0 {
        seq!["References: "@ + join(n.references, " "@)]
    } else {
        seq![]
    };
    let deriver: Seq<Seq<char>> = match n.deriver {
        Some(deriver) => seq!["Deriver: "@ + deriver],
        None => seq![],
    };
    let system: Seq<Seq<char>> = match n.system {
        Some(system) => seq!["System: "@ + system],
        None => seq![],
    };
    let sigs = Seq::new(n.sigs.len(), |i: int| "Sig: "@ + n.sigs[i]);
    let ca: Seq<Seq<char>> = match n.ca {
        Some(ca) => seq!["CA: "@ + ca],
        None => seq![],
    };
    let lines = narinfo_lines(n);
    assert(lines == fixed + references + deriver + system + sigs + ca);
    let line = lines[i];
    if i < 7 {
        assert(line == fixed[i]);
        lemma_field_line("StorePath: "@, n.store_path);
        lemma_field_line("URL: "@, n.url);
        lemma_field_line("Compression: "@, n.compression);
        lemma_field_line("FileHash: "@, n.nar_hash);
        lemma_field_line("FileSize: "@, size);
        lemma_field_line("NarHash: "@, n.nar_hash);
        lemma_field_line("NarSize: "@, size);
    } else if i < 7 + references.len() {
        assert(line == references[i - 7]);
        if single_lined(n) {
            lemma_join_end(n.references);
        }
        lemma_field_line("References: "@, join(n.references, " "@));
    } else if i < 7 + references.len() + deriver.len() {
        assert(line == deriver[i - 7 - references.len()]);
        lemma_field_line("Deriver: "@, n.deriver->0);
    } else if i < 7 + references.len() + deriver.len() + system.len() {
        assert(line == system[i - 7 - references.len() - deriver.len()]);
        lemma_field_line("System: "@, n.system->0);
    } else if i < 7 + references.len() + deriver.len() + system.len() + sigs.len() {
        let j = i - 7 - references.len() - deriver.len() - system.len();
        assert(line == sigs[j]);
        lemma_field_line("Sig: "@, n.sigs[j]);
    } else {
        let j = i - 7 - references.len() - deriver.len() - system.len() - sigs.len();
        assert(line == ca[j]);
        lemma_field_line("CA: "@, n.ca->0);
    }
}

/// A record that has nothing but its mandatory fields is rendered in exactly seven lines.
pub proof fn lemma_bare_record_has_seven_lines(n: NarInfoView)
    requires
        n.references.len() == 0,
        n.deriver is None,
        n.system is None,
        n.sigs.len() == 0,
        n.ca is None,
    ensures
        narinfo_lines(n) == seq![
            "StorePath: "@ + n.store_path,
            "URL: "@ + n.url,
            "Compression: "@ + n.compression,
            "FileHash: "@ + n.nar_hash,
            "FileSize: "@ + decimal(n.nar_size as nat),
            "NarHash: "@ + n.nar_hash,
            "NarSize: "@ + decimal(n.nar_size as nat),
        ],
{
    assert(narinfo_lines(n) =~= seq![
        "StorePath: "@ + n.store_path,
        "URL: "@ + n.url,
        "Compression: "@ + n.compression,
        "FileHash: "@ + n.nar_hash,
        "FileSize: "@ + decimal(n.nar_size as nat),
        "NarHash: "@ + n.nar_hash,
        "NarSize: "@ + decimal(n.nar_size as nat),
    ]);
}

/// The text has one line for each field that has a value and one for each signature, and no
/// other: seven for the mandatory fields, and one more for the references if there are any,
/// for the deriver, for the platform and for the content address if they are known.
pub proof fn lemma_one_line_for_each_value(n: NarInfoView)
    ensures
        narinfo_lines(n).len() == 7 + (if n.references.len() > 0 {
            1int
        } else {
            0
        }) + (if n.deriver is Some {
            1int
        } else {
            0
        }) + (if n.system is Some {
            1int
        } else {
            0
        }) + n.sigs.len() + (if n.ca is Some {
            1int
        } else {
            0
        }),
{
}

/// A field without a value is left out of the text altogether: no line of the text begins
/// with the label of the references when there are none, with that of the deriver, of the
/// platform or of the content address when it is not known, or with that of a signature when
/// there is no signature.
pub proof fn lemma_absent_field_has_no_line(n: NarInfoView, i: int)
    requires
        0 <= i < narinfo_lines(n).len(),
    ensures
        n.references.len() == 0 ==> !"References: "@.is_prefix_of(narinfo_lines(n)[i]),
        n.deriver is None ==> !"Deriver: "@.is_prefix_of(narinfo_lines(n)[i]),
        n.system is None ==> !"System: "@.is_prefix_of(narinfo_lines(n)[i]),
        n.sigs.len() == 0 ==> !"Sig: "@.is_prefix_of(narinfo_lines(n)[i]),
        n.ca is None ==> !"CA: "@.is_prefix_of(narinfo_lines(n)[i]),
{
    reveal_strlit("References: ");
    reveal_strlit("Deriver: ");
    reveal_strlit("System: ");
    reveal_strlit("Sig: ");
    reveal_strlit("CA: ");
    let line = narinfo_lines(n)[i];
    lemma_line_shape(n, i);
    if "References: "@.is_prefix_of(line) {
        lemma_prefix_heads("References: "@, line);
    }
    if "Deriver: "@.is_prefix_of(line) {
        lemma_prefix_heads("Deriver: "@, line);
    }
    if "System: "@.is_prefix_of(line) {
        lemma_prefix_heads("System: "@, line);
    }
    if "Sig: "@.is_prefix_of(line) {
        lemma_prefix_heads("Sig: "@, line);
    }
    if "CA: "@.is_prefix_of(line) {
        lemma_prefix_heads("CA: "@, line);
    }
}

/// The text always ends with an empty line: its last two characters are line feeds. Where no
/// field holds a line feed of its own, there is exactly one empty line at the end: the
/// character before the two is none.
pub proof fn lemma_text_ends_with_one_empty_line(n: NarInfoView)
    ensures
        narinfo_text(n).len() >= 3,
        narinfo_text(n)[narinfo_text(n).len() - 1] == '\n',
        narinfo_text(n)[narinfo_text(n).len() - 2] == '\n',
        single_lined(n) ==> narinfo_text(n)[narinfo_text(n).len() - 3] != '\n',
{
    let lines = narinfo_lines(n);
    lemma_one_line_for_each_value(n);
    lemma_line_shape(n, lines.len() - 1);
    let last = lines.last();
    assert(last.len() >= 2);
    let body = terminated(lines);
    assert(body == terminated(lines.drop_last()) + last + seq!['\n']);
    let text = narinfo_text(n);
    assert(text == body + seq!['\n']);
    assert(text[text.len() - 3] == last.last());
}

proof fn lemma_last_segment_has_no_separator(path: Seq<char>)
    ensures
        free_of(last_segment(path), '/'),
    decreases path.len(),
{
    if path.len() > 0 && path.last() != '/' {
        lemma_last_segment_has_no_separator(path.drop_last());
    }
}

/// A file name is one component of a path: it is not empty and holds no separator.
pub proof fn lemma_file_name_is_one_component(path: Seq<char>)
    ensures
        file_name_of(path) matches Some(name) ==> name.len() > 0 && free_of(name, '/'),
    decreases path.len(),
{
    let name = last_segment(path);
    lemma_last_segment_has_no_separator(path);
    if path.len() > 0 && (name.len() == 0 || name == seq!['.']) && name.len() < path.len() {
        lemma_file_name_is_one_component(path.take(path.len() - name.len() - 1));
    }
}

proof fn lemma_file_names_are_components(paths: Seq<Seq<char>>)
    ensures
        forall|i: int|
            0 <= i < file_names(paths).len() ==> free_of(#[trigger] file_names(paths)[i], '/'),
    decreases paths.len(),
{
    if paths.len() > 0 {
        let rest = file_names(paths.drop_last());
        lemma_file_names_are_components(paths.drop_last());
        lemma_file_name_is_one_component(paths.last());
        let names = file_names(paths);
        assert forall|i: int| 0 <= i < names.len() implies free_of(#[trigger] names[i], '/') by {
            if i < rest.len() {
                assert(names[i] == rest[i]);
            }
        }
    }
}

/// A record names the paths it refers to, and its deriver, by file name only: no reference
/// and no deriver in it holds a separator, whatever the store reported.
pub proof fn lemma_record_refers_by_file_name(
    store_path: Seq<char>,
    key: Seq<char>,
    info: PathInfoView,
    system: Option<Seq<char>>,
    fresh: Option<Seq<Seq<char>>>,
)
    ensures
        forall|i: int|
            0 <= i < narinfo_of(store_path, key, info, system, fresh).references.len()
                ==> free_of(
                #[trigger] narinfo_of(store_path, key, info, system, fresh).references[i],
                '/',
            ),
        narinfo_of(store_path, key, info, system, fresh).deriver matches Some(deriver)
            ==> free_of(deriver, '/'),
{
    lemma_file_names_are_components(info.refs);
    if info.drv is Some {
        lemma_file_name_is_one_component(info.drv->0);
    }
}

} // verus!
