//! Monitors, modes and providers of RandR.
//!
//! Talking to the X server (`GetMonitors`, `GetScreenResources`,
//! `GetOutputInfo`, `GetProviders`) and running the `xrandr` binary happen
//! outside the library. What is decided here: how a monitor is labelled and
//! recognised as virtual, which monitor a name selects, which modes an output
//! offers and in what order, the `xrandr` command lines, and which providers
//! get attached to each other.

use vstd::prelude::*;
use crate::dialog::views;
use crate::text::{
    alt_hex, ascii_lowercase, chars_of, debug_quoted, decimal, lowercase_starts_with, push_char,
    push_decimal, push_hex, starts_with, str_debug, str_eq,
};

verus! {

/// Region of the X11 screen (in pixels of the combined screen) taken by a
/// monitor.
#[derive(Debug, Clone, Copy, PartialEq, Eq, Structural)]
pub struct Region {
    pub x: i16,
    pub y: i16,
    pub width: u16,
    pub height: u16,
}

#[derive(Debug, Clone)]
pub struct MonitorInfo {
    pub name: String,
    pub region: Region,
    pub primary: bool,
    /// Associated RandR outputs. Empty for monitors made with
    /// `xrandr --setmonitor ... none`, which therefore have no mode to change.
    pub outputs: Vec<String>,
}

/// `<width>x<height>`.
pub open spec fn dims_text(width: nat, height: nat) -> Seq<char> {
    decimal(width) + "x"@ + decimal(height)
}

impl MonitorInfo {
    /// `<name> (<width>x<height>)`.
    pub open spec fn label_view(&self) -> Seq<char> {
        self.name@ + " ("@ + dims_text(self.region.width as nat, self.region.height as nat) + ")"@
    }

    /// Short label for the tray menu.
    pub fn label(&self) -> (r: String)
        ensures
            r@ == self.label_view(),
    {
        let mut r = self.name.clone();
        r.append(" (");
        push_decimal(&mut r, self.region.width as u32);
        r.append("x");
        push_decimal(&mut r, self.region.height as u32);
        r.append(")");
        r
    }

    /// Whether the name, ignoring ASCII case, begins with `virtual` or `flm-`.
    pub open spec fn is_virtual_view(&self) -> bool {
        starts_with(ascii_lowercase(self.name@), "virtual"@) || starts_with(
            ascii_lowercase(self.name@),
            "flm-"@,
        )
    }

    /// Heuristic that singles out virtual-monitor candidates in the UI. The
    /// vkms output comes out as "Virtual-1-1", but the suffix depends on the
    /// order in which the provider is attached, so this matches by prefix.
    pub fn is_virtual(&self) -> (r: bool)
        ensures
            r == self.is_virtual_view(),
    {
        let v = chars_of(self.name.as_str());
        lowercase_starts_with(&v, "virtual") || lowercase_starts_with(&v, "flm-")
    }
}

/// A video mode available for an output.
#[derive(Debug, Clone, Copy, PartialEq, Eq, Structural)]
pub struct Mode {
    pub width: u16,
    pub height: u16,
}

impl Mode {
    /// Number of pixels of the mode.
    pub open spec fn area(self) -> int {
        self.width as int * self.height as int
    }

    /// `<width>x<height>`, as the mode is written for `xrandr` and the menu.
    pub fn to_text(&self) -> (r: String)
        ensures
            r@ == dims_text(self.width as nat, self.height as nat),
    {
        let mut r = String::new();
        push_decimal(&mut r, self.width as u32);
        r.append("x");
        push_decimal(&mut r, self.height as u32);
        r
    }
}

fn area_of(m: Mode) -> (r: u32)
    ensures
        r == m.area(),
{
    let w = m.width as u32;
    let h = m.height as u32;
    assert(w * h <= 0xffff * 0xffff) by (nonlinear_arith)
        requires
            w <= 0xffff,
            h <= 0xffff,
    ;
    w * h
}

/// An entry of the screen's global mode table.
#[derive(Debug, Clone, Copy, PartialEq, Eq, Structural)]
pub struct ModeInfo {
    pub id: u32,
    pub width: u16,
    pub height: u16,
}

/// An output, with the ids of the modes it supports.
#[derive(Debug, Clone)]
pub struct OutputModes {
    pub name: String,
    pub modes: Vec<u32>,
}

/// What `GetScreenResources` and `GetOutputInfo` report: the mode table and
/// the outputs whose information could be read, in the server's order.
#[derive(Debug, Clone)]
pub struct ScreenResources {
    pub modes: Vec<ModeInfo>,
    pub outputs: Vec<OutputModes>,
}

/// Why a RandR request of the daemon cannot be met.
#[derive(Debug, Clone, PartialEq, Eq)]
pub enum RandrError {
    /// No monitor has the requested name; `disponiveis` lists the names
    /// there are.
    MonitorNotFound { name: String, disponiveis: String },
    /// No output has the requested name.
    OutputNotFound { name: String },
    /// No provider can act only as an output sink (is vkms loaded?).
    NoSinkProvider,
    /// No other provider can act as an output source.
    NoSourceProvider,
}

impl RandrError {
    /// The message shown to the user for this error.
    pub open spec fn mensagem_view(&self) -> Seq<char> {
        match self {
            RandrError::MonitorNotFound { name, disponiveis } => "monitor "@ + str_debug(name@)
                + " não existe. Monitores disponíveis: "@ + disponiveis@
                + ". Crie o monitor virtual antes de iniciar o streaming (ver README.md)."@,
            RandrError::OutputNotFound { name } => "output RandR "@ + str_debug(name@)
                + " não encontrado"@,
            RandrError::NoSinkProvider => "nenhum provider com capacidade de 'Sink Output' encontrado. O módulo vkms está carregado? Rode `sudo modprobe vkms` (ver README.md)."@,
            RandrError::NoSourceProvider => "nenhum provider com capacidade de 'Source Output' encontrado"@,
        }
    }

    pub fn mensagem(&self) -> (r: String)
        ensures
            r@ == self.mensagem_view(),
    {
        match self {
            RandrError::MonitorNotFound { name, disponiveis } => {
                let mut r = String::from_str("monitor ");
                r.append(debug_quoted(name.as_str()).as_str());
                r.append(" não existe. Monitores disponíveis: ");
                r.append(disponiveis.as_str());
                r.append(". Crie o monitor virtual antes de iniciar o streaming (ver README.md).");
                r
            },
            RandrError::OutputNotFound { name } => {
                let mut r = String::from_str("output RandR ");
                r.append(debug_quoted(name.as_str()).as_str());
                r.append(" não encontrado");
                r
            },
            RandrError::NoSinkProvider => String::from_str(
                "nenhum provider com capacidade de 'Sink Output' encontrado. O módulo vkms está carregado? Rode `sudo modprobe vkms` (ver README.md).",
            ),
            RandrError::NoSourceProvider => String::from_str(
                "nenhum provider com capacidade de 'Source Output' encontrado",
            ),
        }
    }
}

// ---------------------------------------------------------------------------
// Finding a monitor
// ---------------------------------------------------------------------------

/// Names joined with `, `.
pub open spec fn join_comma(names: Seq<Seq<char>>) -> Seq<char>
    decreases names.len(),
{
    if names.len() == 0 {
        Seq::empty()
    } else if names.len() == 1 {
        names[0]
    } else {
        join_comma(names.drop_last()) + ", "@ + names.last()
    }
}

/// Names of the monitors.
pub open spec fn monitor_names(ms: Seq<MonitorInfo>) -> Seq<Seq<char>> {
    ms.map_values(|m: MonitorInfo| m.name@)
}

/// The list of monitors shown when a name is not found: their names, or
/// `(nenhum)` when there is none.
pub open spec fn available_text(ms: Seq<MonitorInfo>) -> Seq<char> {
    if ms.len() == 0 {
        "(nenhum)"@
    } else {
        join_comma(monitor_names(ms))
    }
}

/// The names of `ms`, or `(nenhum)` when it is empty.
pub fn available_monitors(ms: &Vec<MonitorInfo>) -> (r: String)
    ensures
        r@ == available_text(ms@),
{
    if ms.len() == 0 {
        return String::from_str("(nenhum)");
    }
    let mut r = ms[0].name.clone();
    let mut k: usize = 1;
    assert(monitor_names(ms@).take(1) =~= seq![ms@[0].name@]);
    while k < ms.len()
        invariant
            1 <= k <= ms.len(),
            r@ == join_comma(monitor_names(ms@).take(k as int)),
        decreases ms.len() - k,
    {
        r.append(", ");
        r.append(ms[k].name.as_str());
        assert(monitor_names(ms@).take(k + 1).drop_last() =~= monitor_names(ms@).take(k as int));
        k = k + 1;
    }
    assert(monitor_names(ms@).take(k as int) =~= monitor_names(ms@));
    r
}

/// Locates the monitor called `name` among `monitores`: the first with that
/// name, or an error naming the monitors there are.
pub fn find_monitor<'a>(monitores: &'a Vec<MonitorInfo>, name: &str) -> (r: Result<
    &'a MonitorInfo,
    RandrError,
>)
    ensures
        match r {
            Ok(m) => exists|i: int|
                0 <= i < monitores@.len() && monitores@[i] == *m && m.name@ == name@ && forall|
                    k: int,
                |
                    0 <= k < i ==> (#[trigger] monitores@[k]).name@ != name@,
            Err(e) => {
                &&& forall|k: int|
                    0 <= k < monitores@.len() ==> (#[trigger] monitores@[k]).name@ != name@
                &&& e matches RandrError::MonitorNotFound { name: n, disponiveis: d }
                &&& n@ == name@
                &&& d@ == available_text(monitores@)
            },
        },
{
    let mut i: usize = 0;
    while i < monitores.len()
        invariant
            i <= monitores.len(),
            forall|k: int| 0 <= k < i ==> (#[trigger] monitores@[k]).name@ != name@,
        decreases monitores.len() - i,
    {
        if str_eq(monitores[i].name.as_str(), name) {
            return Ok(&monitores[i]);
        }
        i = i + 1;
    }
    Err(
        RandrError::MonitorNotFound {
            name: String::from_str(name),
            disponiveis: available_monitors(monitores),
        },
    )
}

// ---------------------------------------------------------------------------
// Modes of an output
// ---------------------------------------------------------------------------

/// The dimensions of mode `id`: those of the first table entry with that id.
pub open spec fn mode_lookup(table: Seq<ModeInfo>, id: u32) -> Option<Mode>
    decreases table.len(),
{
    if table.len() == 0 {
        None
    } else if table[0].id == id {
        Some(Mode { width: table[0].width, height: table[0].height })
    } else {
        mode_lookup(table.drop_first(), id)
    }
}

/// The dimensions of the modes `ids`, each kept the first time it appears;
/// ids missing from the table are skipped.
pub open spec fn distinct_modes(table: Seq<ModeInfo>, ids: Seq<u32>) -> Seq<Mode>
    decreases ids.len(),
{
    if ids.len() == 0 {
        Seq::empty()
    } else {
        let prev = distinct_modes(table, ids.drop_last());
        match mode_lookup(table, ids.last()) {
            Some(m) => if prev.contains(m) {
                prev
            } else {
                prev.push(m)
            },
            None => prev,
        }
    }
}

/// `r` is `d` ordered from the largest area to the smallest, modes of equal
/// area keeping their order in `d` (what a stable sort by descending area
/// gives).
pub open spec fn sorted_by_area(d: Seq<Mode>, r: Seq<Mode>) -> bool {
    &&& r.len() == d.len()
    &&& r.no_duplicates() == d.no_duplicates()
    &&& forall|m: Mode| r.contains(m) <==> d.contains(m)
    &&& forall|i: int, j: int|
        #![trigger r[i], r[j]]
        0 <= i < j < r.len() ==> r[i].area() >= r[j].area()
    &&& forall|i: int, j: int, a: int, b: int|
        #![trigger r[i], r[j], d[a], d[b]]
        0 <= i < j < r.len() && 0 <= a < d.len() && 0 <= b < d.len() && d[a] == r[i] && d[b]
            == r[j] && r[i].area() == r[j].area() ==> a < b
}

/// The first output called `name`.
pub open spec fn find_output(outputs: Seq<OutputModes>, name: Seq<char>) -> Option<OutputModes>
    decreases outputs.len(),
{
    if outputs.len() == 0 {
        None
    } else if outputs[0].name@ == name {
        Some(outputs[0])
    } else {
        find_output(outputs.drop_first(), name)
    }
}

proof fn lemma_mode_lookup_skip(table: Seq<ModeInfo>, i: int, id: u32)
    requires
        0 <= i < table.len(),
        table[i].id != id,
    ensures
        mode_lookup(table.subrange(i, table.len() as int), id) == mode_lookup(
            table.subrange(i + 1, table.len() as int),
            id,
        ),
{
    assert(table.subrange(i, table.len() as int).drop_first() =~= table.subrange(
        i + 1,
        table.len() as int,
    ));
}

fn lookup_mode(table: &Vec<ModeInfo>, id: u32) -> (r: Option<Mode>)
    ensures
        r == mode_lookup(table@, id),
{
    let mut i: usize = 0;
    assert(table@.subrange(0, table@.len() as int) =~= table@);
    while i < table.len()
        invariant
            i <= table.len(),
            mode_lookup(table@, id) == mode_lookup(table@.subrange(i as int, table@.len() as int), id),
        decreases table.len() - i,
    {
        if table[i].id == id {
            return Some(Mode { width: table[i].width, height: table[i].height });
        }
        proof {
            lemma_mode_lookup_skip(table@, i as int, id);
        }
        i = i + 1;
    }
    None
}

fn contains_mode(v: &Vec<Mode>, m: Mode) -> (r: bool)
    ensures
        r == v@.contains(m),
{
    let mut i: usize = 0;
    while i < v.len()
        invariant
            i <= v.len(),
            forall|k: int| 0 <= k < i ==> v@[k] != m,
        decreases v.len() - i,
    {
        if v[i] == m {
            return true;
        }
        i = i + 1;
    }
    false
}

/// The modes listed for an output never repeat a resolution.
pub proof fn lemma_distinct_modes_no_duplicates(table: Seq<ModeInfo>, ids: Seq<u32>)
    ensures
        distinct_modes(table, ids).no_duplicates(),
    decreases ids.len(),
{
    if ids.len() > 0 {
        lemma_distinct_modes_no_duplicates(table, ids.drop_last());
    }
}

/// A resolution is listed for an output exactly when one of the output's
/// mode ids has it in the mode table.
pub proof fn lemma_distinct_modes_members(table: Seq<ModeInfo>, ids: Seq<u32>, m: Mode)
    ensures
        distinct_modes(table, ids).contains(m) <==> exists|k: int|
            0 <= k < ids.len() && mode_lookup(table, #[trigger] ids[k]) == Some(m),
    decreases ids.len(),
{
    if ids.len() > 0 {
        let prev = ids.drop_last();
        lemma_distinct_modes_members(table, prev, m);
        if distinct_modes(table, ids).contains(m) {
            if distinct_modes(table, prev).contains(m) {
                let k = choose|k: int| 0 <= k < prev.len() && mode_lookup(table, #[trigger] prev[k]) == Some(m);
                assert(ids[k] == prev[k]);
            } else {
                let d = distinct_modes(table, ids);
                let i = choose|i: int| 0 <= i < d.len() && d[i] == m;
                assert(mode_lookup(table, ids[ids.len() - 1]) == Some(m));
            }
        }
        if exists|k: int| 0 <= k < ids.len() && mode_lookup(table, #[trigger] ids[k]) == Some(m) {
            let k = choose|k: int| 0 <= k < ids.len() && mode_lookup(table, #[trigger] ids[k]) == Some(m);
            if k < ids.len() - 1 {
                assert(prev[k] == ids[k]);
                let dp = distinct_modes(table, prev);
                assert(dp.contains(m));
                let i = choose|i: int| 0 <= i < dp.len() && dp[i] == m;
                let d = distinct_modes(table, ids);
                assert(d[i] == m);
            } else {
                let d = distinct_modes(table, ids);
                if !distinct_modes(table, prev).contains(m) {
                    assert(d[d.len() - 1] == m);
                } else {
                    let dp = distinct_modes(table, prev);
                    let i = choose|i: int| 0 <= i < dp.len() && dp[i] == m;
                    assert(d[i] == m);
                }
            }
        }
    }
}

fn collect_modes(table: &Vec<ModeInfo>, ids: &Vec<u32>) -> (r: Vec<Mode>)
    ensures
        r@ == distinct_modes(table@, ids@),
{
    let mut r: Vec<Mode> = Vec::new();
    let mut k: usize = 0;
    assert(ids@.take(0) =~= Seq::<u32>::empty());
    while k < ids.len()
        invariant
            k <= ids.len(),
            r@ == distinct_modes(table@, ids@.take(k as int)),
        decreases ids.len() - k,
    {
        assert(ids@.take(k + 1).drop_last() =~= ids@.take(k as int));
        assert(ids@.take(k + 1).last() == ids@[k as int]);
        if let Some(m) = lookup_mode(table, ids[k]) {
            if !contains_mode(&r, m) {
                r.push(m);
            }
        }
        k = k + 1;
    }
    assert(ids@.take(k as int) =~= ids@);
    r
}

/// Invariant of the insertion sort after `k` modes of `d`: `r` holds them,
/// `p[i]` is the position in `d` of `r[i]`, the positions are those of
/// `0..k` each once, `r` is ordered by descending area, and equal areas keep
/// the order of `d`.
spec fn sort_inv(d: Seq<Mode>, r: Seq<Mode>, p: Seq<int>, k: int) -> bool {
    &&& 0 <= k <= d.len()
    &&& r.len() == k
    &&& p.len() == k
    &&& forall|i: int| 0 <= i < k ==> 0 <= #[trigger] p[i] < k && r[i] == d[p[i]]
    &&& forall|i: int, j: int| 0 <= i < j < k ==> #[trigger] p[i] != #[trigger] p[j]
    &&& forall|m: int| 0 <= m < k ==> #[trigger] p.contains(m)
    &&& forall|i: int, j: int|
        #![trigger r[i], r[j]]
        0 <= i < j < k ==> r[i].area() >= r[j].area()
    &&& forall|i: int, j: int|
        #![trigger r[i], r[j]]
        0 <= i < j < k && r[i].area() == r[j].area() ==> p[i] < p[j]
}

/// Inserting `d[k]` at `pos`, after every mode of at least its area and
/// before every smaller one, keeps the invariant.
proof fn lemma_sort_step(d: Seq<Mode>, r: Seq<Mode>, p: Seq<int>, k: int, pos: int)
    requires
        sort_inv(d, r, p, k),
        k < d.len(),
        0 <= pos <= k,
        forall|q: int| 0 <= q < pos ==> (#[trigger] r[q]).area() >= d[k].area(),
        pos == k || r[pos].area() < d[k].area(),
    ensures
        sort_inv(d, r.insert(pos, d[k]), p.insert(pos, k), k + 1),
{
    let x = d[k];
    let r2 = r.insert(pos, x);
    let p2 = p.insert(pos, k);
    r.insert_ensures(pos, x);
    p.insert_ensures(pos, k);
    assert forall|q: int| pos <= q < k implies (#[trigger] r[q]).area() < x.area() by {
        if q > pos {
            assert(r[pos].area() >= r[q].area());
        }
    }
    assert forall|i: int| 0 <= i < k + 1 implies 0 <= #[trigger] p2[i] < k + 1 && r2[i]
        == d[p2[i]] by {
        if i < pos {
            assert(p2[i] == p[i]);
        } else if i > pos {
            assert(p2[i] == p[i - 1]);
        }
    }
    assert forall|i: int, j: int| 0 <= i < j < k + 1 implies #[trigger] p2[i] != #[trigger] p2[j] by {
        if i < pos && j < pos {
        } else if i < pos && j == pos {
        } else if i < pos {
            assert(p2[j] == p[j - 1]);
        } else if i == pos {
            assert(p2[j] == p[j - 1]);
        } else {
            assert(p2[i] == p[i - 1]);
            assert(p2[j] == p[j - 1]);
        }
    }
    assert forall|m: int| 0 <= m < k + 1 implies #[trigger] p2.contains(m) by {
        if m == k {
            assert(p2[pos] == m);
        } else {
            assert(p.contains(m));
            let i = choose|i: int| 0 <= i < k && #[trigger] p[i] == m;
            if i < pos {
                assert(p2[i] == m);
            } else {
                assert(p2[i + 1] == m);
            }
        }
    }
    assert forall|i: int, j: int|
        #![trigger r2[i], r2[j]]
        0 <= i < j < k + 1 implies r2[i].area() >= r2[j].area() by {
        if j < pos {
        } else if j == pos {
            assert(r2[i] == r[i]);
        } else if i < pos {
            assert(r2[j] == r[j - 1]);
            assert(r2[i] == r[i]);
            assert(r[i].area() >= r[j - 1].area());
        } else if i == pos {
            assert(r2[j] == r[j - 1]);
        } else {
            assert(r2[j] == r[j - 1]);
            assert(r2[i] == r[i - 1]);
            assert(r[i - 1].area() >= r[j - 1].area());
        }
    }
    assert forall|i: int, j: int|
        #![trigger r2[i], r2[j]]
        0 <= i < j < k + 1 && r2[i].area() == r2[j].area() implies p2[i] < p2[j] by {
        if j < pos {
            assert(r[i].area() == r[j].area());
        } else if j == pos {
            assert(r2[i] == r[i]);
        } else if i < pos {
            assert(r2[j] == r[j - 1]);
            assert(r2[i] == r[i]);
            assert(p2[j] == p[j - 1]);
            assert(r[i].area() == r[j - 1].area());
        } else if i == pos {
            assert(r2[j] == r[j - 1]);
            assert(r[j - 1].area() < x.area());
        } else {
            assert(r2[j] == r[j - 1]);
            assert(r2[i] == r[i - 1]);
            assert(p2[j] == p[j - 1]);
            assert(p2[i] == p[i - 1]);
            assert(r[i - 1].area() == r[j - 1].area());
        }
    }
}

/// Once every mode of a duplicate-free `d` is in, `r` is `d` sorted.
proof fn lemma_sort_done(d: Seq<Mode>, r: Seq<Mode>, p: Seq<int>)
    requires
        sort_inv(d, r, p, d.len() as int),
        d.no_duplicates(),
    ensures
        sorted_by_area(d, r),
{
    let n = d.len() as int;
    assert forall|m: Mode| r.contains(m) <==> d.contains(m) by {
        if r.contains(m) {
            let i = choose|i: int| 0 <= i < r.len() && r[i] == m;
            assert(d[p[i]] == m);
        }
        if d.contains(m) {
            let a = choose|a: int| 0 <= a < d.len() && d[a] == m;
            assert(p.contains(a));
            let i = choose|i: int| 0 <= i < n && #[trigger] p[i] == a;
            assert(r[i] == m);
        }
    }
    assert forall|i: int, j: int| 0 <= i < r.len() && 0 <= j < r.len() && i != j implies r[i]
        != r[j] by {
        if i < j {
            assert(p[i] != p[j]);
        } else {
            assert(p[j] != p[i]);
        }
    }
    assert forall|i: int, j: int, a: int, b: int|
        #![trigger r[i], r[j], d[a], d[b]]
        0 <= i < j < r.len() && 0 <= a < d.len() && 0 <= b < d.len() && d[a] == r[i] && d[b]
            == r[j] && r[i].area() == r[j].area() implies a < b by {
        assert(d[p[i]] == r[i]);
        assert(d[p[j]] == r[j]);
    }
}

/// Orders `d` from the largest area to the smallest, keeping the order of
/// modes with equal area (a stable sort by descending area).
fn sort_by_area(d: &Vec<Mode>) -> (r: Vec<Mode>)
    requires
        d@.no_duplicates(),
    ensures
        sorted_by_area(d@, r@),
{
    let mut r: Vec<Mode> = Vec::new();
    let ghost mut p: Seq<int> = Seq::empty();
    let n = d.len();
    let mut k: usize = 0;
    while k < n
        invariant
            n == d.len(),
            sort_inv(d@, r@, p, k as int),
        decreases n - k,
    {
        let x = d[k];
        let ax = area_of(x);
        let mut pos: usize = 0;
        while pos < r.len() && area_of(r[pos]) >= ax
            invariant
                pos <= r.len(),
                ax == x.area(),
                forall|q: int| 0 <= q < pos ==> (#[trigger] r@[q]).area() >= x.area(),
            decreases r.len() - pos,
        {
            pos = pos + 1;
        }
        proof {
            lemma_sort_step(d@, r@, p, k as int, pos as int);
            p = p.insert(pos as int, k as int);
        }
        r.insert(pos, x);
        k = k + 1;
    }
    proof {
        lemma_sort_done(d@, r@, p);
    }
    r
}

/// The modes offered for `output_name`: the dimensions of its modes, each
/// once, ordered by descending area (see `sorted_by_area`). The refresh rate
/// is ignored: the capture framerate is set in the pipeline, not by the mode.
pub fn list_modes(recursos: &ScreenResources, output_name: &str) -> (r: Result<
    Vec<Mode>,
    RandrError,
>)
    ensures
        match find_output(recursos.outputs@, output_name@) {
            Some(out) => r matches Ok(v) && sorted_by_area(
                distinct_modes(recursos.modes@, out.modes@),
                v@,
            ),
            None => r matches Err(RandrError::OutputNotFound { name }) && name@ == output_name@,
        },
{
    let ghost outs = recursos.outputs@;
    let mut i: usize = 0;
    assert(outs.subrange(0, outs.len() as int) =~= outs);
    while i < recursos.outputs.len()
        invariant
            outs == recursos.outputs@,
            i <= outs.len(),
            find_output(outs, output_name@) == find_output(
                outs.subrange(i as int, outs.len() as int),
                output_name@,
            ),
        decreases outs.len() - i,
    {
        let ghost rest = outs.subrange(i as int, outs.len() as int);
        assert(rest.drop_first() =~= outs.subrange(i + 1, outs.len() as int));
        if str_eq(recursos.outputs[i].name.as_str(), output_name) {
            let modos = collect_modes(&recursos.modes, &recursos.outputs[i].modes);
            proof {
                lemma_distinct_modes_no_duplicates(recursos.modes@, outs[i as int].modes@);
                assert(rest[0] == outs[i as int]);
            }
            return Ok(sort_by_area(&modos));
        }
        i = i + 1;
    }
    Err(RandrError::OutputNotFound { name: String::from_str(output_name) })
}

/// The `xrandr` arguments that apply `mode` to `output_name`.
pub open spec fn set_mode_args_view(output_name: Seq<char>, mode: Mode) -> Seq<Seq<char>> {
    seq!["--output"@, output_name, "--mode"@, dims_text(mode.width as nat, mode.height as nat)]
}

/// Arguments of `xrandr --output <output> --mode <width>x<height>`. The
/// mode is applied by the `xrandr` binary, which also resizes the screen and
/// moves the other CRTCs in the required order.
pub fn set_mode_args(output_name: &str, mode: Mode) -> (r: Vec<String>)
    ensures
        views(r@) == set_mode_args_view(output_name@, mode),
{
    let mut r: Vec<String> = Vec::new();
    r.push(String::from_str("--output"));
    r.push(String::from_str(output_name));
    r.push(String::from_str("--mode"));
    r.push(mode.to_text());
    assert(views(r@) =~= set_mode_args_view(output_name@, mode));
    r
}

// ---------------------------------------------------------------------------
// Providers
// ---------------------------------------------------------------------------

/// A RandR provider, used to attach vkms as an output of the main GPU.
#[derive(Debug, Clone)]
pub struct Provider {
    pub id: u32,
    pub name: String,
    pub source_output: bool,
    pub sink_output: bool,
}

/// A provider that can only receive output: the vkms one.
pub open spec fn is_sink(p: Provider) -> bool {
    p.sink_output && !p.source_output
}

/// A provider, other than `sink_id`, that can source output: the real GPU.
pub open spec fn is_source(p: Provider, sink_id: u32) -> bool {
    p.source_output && p.id != sink_id
}

/// The attachment to make: which providers, the `xrandr` arguments and a
/// description for the user.
#[derive(Debug, Clone)]
pub struct VkmsAttach {
    pub sink: usize,
    pub source: usize,
    pub args: Vec<String>,
    pub descricao: String,
}

/// The `xrandr` arguments that attach provider `sink` to `source`. The ids
/// go in hexadecimal with `0x`: a bare decimal number is read by `xrandr` as
/// an index into the provider list, not as an XID.
pub open spec fn attach_args_view(sink_id: u32, source_id: u32) -> Seq<Seq<char>> {
    seq!["--setprovideroutputsource"@, alt_hex(sink_id as nat), alt_hex(source_id as nat)]
}

fn alt_hex_string(n: u32) -> (r: String)
    ensures
        r@ == alt_hex(n as nat),
{
    let mut r = String::from_str("0x");
    push_hex(&mut r, n);
    proof {
        reveal_strlit("0x");
    }
    assert(r@ =~= alt_hex(n as nat));
    r
}

/// Chooses how to attach the vkms provider (output sink) to the real GPU's
/// provider (output source), as `xrandr --setprovideroutputsource <sink>
/// <source>` does: the sink is the first provider that is only a sink, the
/// source the first other provider that can source output.
pub fn plan_vkms_attach(providers: &Vec<Provider>) -> (r: Result<VkmsAttach, RandrError>)
    ensures
        (r == Err::<VkmsAttach, RandrError>(RandrError::NoSinkProvider)) <==> (forall|k: int|
            0 <= k < providers@.len() ==> !is_sink(#[trigger] providers@[k])),
        r matches Err(e) ==> (e is NoSinkProvider || e is NoSourceProvider),
        r == Err::<VkmsAttach, RandrError>(RandrError::NoSourceProvider) ==> exists|s: int|
            0 <= s < providers@.len() && is_sink(providers@[s]) && (forall|k: int|
                0 <= k < s ==> !is_sink(#[trigger] providers@[k])) && (forall|k: int|
                0 <= k < providers@.len() ==> !is_source(#[trigger] providers@[k], providers@[s].id)),
        r matches Ok(a) ==> {
            let sink = providers@[a.sink as int];
            let source = providers@[a.source as int];
            &&& a.sink < providers@.len()
            &&& a.source < providers@.len()
            &&& is_sink(sink)
            &&& forall|k: int| 0 <= k < a.sink ==> !is_sink(#[trigger] providers@[k])
            &&& is_source(source, sink.id)
            &&& forall|k: int| 0 <= k < a.source ==> !is_source(#[trigger] providers@[k], sink.id)
            &&& views(a.args@) == attach_args_view(sink.id, source.id)
            &&& a.descricao@ == sink.name@ + " anexado a "@ + source.name@
        },
{
    let n = providers.len();
    let mut s: usize = 0;
    while s < n && !(providers[s].sink_output && !providers[s].source_output)
        invariant
            s <= n == providers.len(),
            forall|k: int| 0 <= k < s ==> !is_sink(#[trigger] providers@[k]),
        decreases n - s,
    {
        s = s + 1;
    }
    if s == n {
        return Err(RandrError::NoSinkProvider);
    }
    let sink_id = providers[s].id;
    let mut t: usize = 0;
    while t < n && !(providers[t].source_output && providers[t].id != sink_id)
        invariant
            t <= n == providers.len(),
            forall|k: int| 0 <= k < t ==> !is_source(#[trigger] providers@[k], sink_id),
        decreases n - t,
    {
        t = t + 1;
    }
    if t == n {
        return Err(RandrError::NoSourceProvider);
    }
    let mut args: Vec<String> = Vec::new();
    args.push(String::from_str("--setprovideroutputsource"));
    args.push(alt_hex_string(sink_id));
    args.push(alt_hex_string(providers[t].id));
    assert(views(args@) =~= attach_args_view(sink_id, providers@[t as int].id));
    let mut descricao = providers[s].name.clone();
    descricao.append(" anexado a ");
    descricao.append(providers[t].name.as_str());
    Ok(VkmsAttach { sink: s, source: t, args, descricao })
}

} // verus!
