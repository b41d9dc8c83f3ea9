//! The settings store: the values that a setting can have, the settings that
//! are set, and how they resolve against the defaults.

use vstd::prelude::*;

use crate::strmap::StrMap;
use crate::text::{copy_texts, same_text, texts};

verus! {

/// A value of the settings store.
#[derive(Debug)]
pub enum CValue {
    /// A text.
    Str(String),
    /// A toggle.
    Bool(bool),
    /// A list of texts.
    StrArr(Vec<String>),
    /// One of a list of choices: the choices, and the position of the chosen
    /// one.
    OneOff(Vec<String>, usize),
    /// The path of a file.
    PickFile(String),
    /// The path of a folder.
    PickFolder(String),
}

/// A `CValue` as mathematical values.
pub enum CValueView {
    Str(Seq<char>),
    Bool(bool),
    StrArr(Seq<Seq<char>>),
    OneOff(Seq<Seq<char>>, usize),
    PickFile(Seq<char>),
    PickFolder(Seq<char>),
}

impl View for CValue {
    type V = CValueView;

    open spec fn view(&self) -> CValueView {
        match self {
            CValue::Str(s) => CValueView::Str(s@),
            CValue::Bool(b) => CValueView::Bool(*b),
            CValue::StrArr(a) => CValueView::StrArr(texts(a@)),
            CValue::OneOff(c, i) => CValueView::OneOff(texts(c@), *i),
            CValue::PickFile(s) => CValueView::PickFile(s@),
            CValue::PickFolder(s) => CValueView::PickFolder(s@),
        }
    }
}

/// The kind of a settings value, without what it holds.
#[derive(Debug, Clone, Copy, PartialEq, Eq, Structural)]
pub enum Kind {
    Str,
    Bool,
    StrArr,
    OneOff,
    PickFile,
    PickFolder,
}

/// The kind of the value.
pub open spec fn kind_of(v: CValueView) -> Kind {
    match v {
        CValueView::Str(_) => Kind::Str,
        CValueView::Bool(_) => Kind::Bool,
        CValueView::StrArr(_) => Kind::StrArr,
        CValueView::OneOff(_, _) => Kind::OneOff,
        CValueView::PickFile(_) => Kind::PickFile,
        CValueView::PickFolder(_) => Kind::PickFolder,
    }
}

/// The value is sound: a choice points into its list of choices.
pub open spec fn is_sound(v: CValueView) -> bool {
    match v {
        CValueView::OneOff(c, i) => i < c.len(),
        _ => true,
    }
}

/// The value can be read as one text: it is a text, a path, or a sound
/// choice.
pub open spec fn is_textual(v: CValueView) -> bool {
    match v {
        CValueView::Str(_) => true,
        CValueView::OneOff(c, i) => i < c.len(),
        CValueView::PickFile(_) => true,
        CValueView::PickFolder(_) => true,
        _ => false,
    }
}

/// The text of a textual value: the text or path itself, or the chosen one
/// of the choices.
pub open spec fn text_of(v: CValueView) -> Seq<char> {
    match v {
        CValueView::Str(s) => s,
        CValueView::OneOff(c, i) => c[i as int],
        CValueView::PickFile(s) => s,
        CValueView::PickFolder(s) => s,
        _ => Seq::empty(),
    }
}

/// The map that a list of texts stands for when it is read as keys and
/// values in turn. A key without a value, at the end, gets the empty text. A
/// key that comes again replaces its earlier value.
pub open spec fn paired(s: Seq<Seq<char>>) -> Map<Seq<char>, Seq<char>>
    decreases s.len(),
{
    if s.len() == 0 {
        Map::empty()
    } else if s.len() % 2 == 1 {
        paired(s.drop_last()).insert(s.last(), Seq::empty())
    } else {
        paired(s.take(s.len() - 2)).insert(s[s.len() - 2], s[s.len() - 1])
    }
}

/// The position of the first text of `s`, at or after `from`, that equals
/// `x`.
pub open spec fn position_from(s: Seq<Seq<char>>, x: Seq<char>, from: int) -> Option<int>
    decreases s.len() - from,
{
    if from < 0 || from >= s.len() {
        None
    } else if s[from] == x {
        Some(from)
    } else {
        position_from(s, x, from + 1)
    }
}

/// What a value becomes when it is to stand where `to_match` is expected. A
/// value of the expected kind stays as it is. A text becomes a path where a
/// path is expected, and the first choice that equals it where a choice is
/// expected. Nothing else fits.
pub open spec fn coerced(v: CValueView, to_match: CValueView) -> Option<CValueView> {
    if kind_of(v) == kind_of(to_match) {
        Some(v)
    } else {
        match (to_match, v) {
            (CValueView::OneOff(choices, _), CValueView::Str(chosen)) => match position_from(
                choices,
                chosen,
                0,
            ) {
                Some(i) => Some(CValueView::OneOff(choices, i as usize)),
                None => None,
            },
            (CValueView::PickFile(_), CValueView::Str(chosen)) => Some(CValueView::PickFile(chosen)),
            (CValueView::PickFolder(_), CValueView::Str(chosen)) => Some(
                CValueView::PickFolder(chosen),
            ),
            _ => None,
        }
    }
}

impl Clone for CValue {
    fn clone(&self) -> (r: Self)
        ensures
            r@ == self@,
    {
        match self {
            CValue::Str(s) => CValue::Str(s.clone()),
            CValue::Bool(b) => CValue::Bool(*b),
            CValue::StrArr(a) => CValue::StrArr(copy_texts(a)),
            CValue::OneOff(c, i) => CValue::OneOff(copy_texts(c), *i),
            CValue::PickFile(s) => CValue::PickFile(s.clone()),
            CValue::PickFolder(s) => CValue::PickFolder(s.clone()),
        }
    }
}

impl CValue {
    /// The kind of the value.
    pub fn kind(&self) -> (r: Kind)
        ensures
            r == kind_of(self@),
    {
        match self {
            CValue::Str(_) => Kind::Str,
            CValue::Bool(_) => Kind::Bool,
            CValue::StrArr(_) => Kind::StrArr,
            CValue::OneOff(_, _) => Kind::OneOff,
            CValue::PickFile(_) => Kind::PickFile,
            CValue::PickFolder(_) => Kind::PickFolder,
        }
    }

    /// The text of a textual value.
    pub fn as_string(&self) -> (r: String)
        requires
            is_textual(self@),
        ensures
            r@ == text_of(self@),
    {
        match self {
            CValue::Str(s) => s.clone(),
            CValue::OneOff(c, i) => c[*i].clone(),
            CValue::PickFile(s) => s.clone(),
            CValue::PickFolder(s) => s.clone(),
            _ => String::new(),
        }
    }

    /// The texts of a list.
    pub fn as_strarr(&self) -> (r: Vec<String>)
        requires
            self@ is StrArr,
        ensures
            texts(r@) == self@->StrArr_0,
    {
        match self {
            CValue::StrArr(s) => copy_texts(s),
            _ => Vec::new(),
        }
    }

    /// The map that a list stands for, its texts read as keys and values in
    /// turn.
    pub fn as_hashmap(&self) -> (r: StrMap<String>)
        requires
            self@ is StrArr,
        ensures
            r@ == paired(self@->StrArr_0),
    {
        let mut out: StrMap<String> = StrMap::new();
        match self {
            CValue::StrArr(s) => {
                let ghost t = texts(s@);
                let mut first: Option<String> = None;
                let mut i: usize = 0;
                assert(t.take(0) =~= Seq::<Seq<char>>::empty());
                while i < s.len()
                    invariant
                        t == texts(s@),
                        i <= s@.len(),
                        i % 2 == 0 ==> first is None && out@ == paired(t.take(i as int)),
                        i % 2 == 1 ==> first is Some && first.unwrap()@ == t[i - 1] && out@
                            == paired(t.take(i - 1)),
                    decreases s@.len() - i,
                {
                    match first {
                        Some(fst) => {
                            proof {
                                let u = t.take(i + 1);
                                assert(u.take(u.len() - 2) =~= t.take(i - 1));
                            }
                            out.insert(fst, s[i].clone());
                            first = None;
                        },
                        None => {
                            first = Some(s[i].clone());
                        },
                    }
                    i += 1;
                }
                assert(t.take(i as int) =~= t);
                match first {
                    Some(fst) => {
                        assert(t.drop_last() =~= t.take(i - 1));
                        out.insert(fst, String::new());
                    },
                    None => {},
                }
            },
            _ => {},
        }
        out
    }

    /// The state of a toggle.
    pub fn as_bool(&self) -> (r: bool)
        requires
            self@ is Bool,
        ensures
            r == self@->Bool_0,
    {
        match self {
            CValue::Bool(b) => *b,
            _ => false,
        }
    }

    /// Makes the value fit where `to_match` is expected, if it can.
    pub fn try_coerce(self, to_match: &CValue) -> (r: Option<CValue>)
        ensures
            match coerced(self@, to_match@) {
                Some(v) => r is Some && r.unwrap()@ == v,
                None => r is None,
            },
            r is Some ==> kind_of(r.unwrap()@) == kind_of(to_match@),
            r is Some && is_sound(self@) ==> is_sound(r.unwrap()@),
    {
        if self.kind() == to_match.kind() {
            return Some(self);
        }
        let ghost given = self@;
        let ghost wanted = to_match@;
        match (to_match, self) {
            (CValue::OneOff(choices, _), CValue::Str(chosen)) => {
                let ghost t = texts(choices@);
                let mut i: usize = 0;
                while i < choices.len()
                    invariant
                        t == texts(choices@),
                        given == self@,
                        wanted == to_match@,
                        given == CValueView::Str(chosen@),
                        wanted is OneOff,
                        wanted->OneOff_0 == t,
                        i <= choices@.len(),
                        position_from(t, chosen@, 0) == position_from(t, chosen@, i as int),
                    decreases choices@.len() - i,
                {
                    if same_text(choices[i].as_str(), chosen.as_str()) {
                        return Some(CValue::OneOff(copy_texts(choices), i));
                    }
                    i += 1;
                }
                None
            },
            (CValue::PickFile(_), CValue::Str(chosen)) => Some(CValue::PickFile(chosen)),
            (CValue::PickFolder(_), CValue::Str(chosen)) => Some(CValue::PickFolder(chosen)),
            _ => None,
        }
    }
}

/// The settings with their defaults: for each key a label and the value
/// that holds where nothing else is set.
pub type Defaults = StrMap<(String, CValue)>;

/// The settings that are set for one game, or for all games: a value under
/// each key that is set.
#[derive(Debug)]
pub struct Cfg(pub StrMap<CValue>);

impl Clone for StrMap<CValue> {
    fn clone(&self) -> (r: Self)
        ensures
            r@ == self@,
            r.pairs() == self.pairs(),
    {
        let mut out: StrMap<CValue> = StrMap::new();
        let n = self.len();
        let mut i: usize = 0;
        assert(self.pairs().take(0) =~= out.pairs());
        while i < n
            invariant
                n == self.pairs().len(),
                crate::strmap::distinct_keys(self.pairs()),
                i <= n,
                out.pairs() == self.pairs().take(i as int),
            decreases n - i,
        {
            proof {
                crate::strmap::lemma_next_pair(self.pairs(), i as int);
            }
            out.insert(self.key_at(i).clone(), self.value_at(i).clone());
            i += 1;
        }
        assert(self.pairs().take(n as int) =~= self.pairs());
        out
    }
}

impl Clone for StrMap<(String, CValue)> {
    fn clone(&self) -> (r: Self)
        ensures
            r@ == self@,
            r.pairs() == self.pairs(),
    {
        let mut out: StrMap<(String, CValue)> = StrMap::new();
        let n = self.len();
        let mut i: usize = 0;
        assert(self.pairs().take(0) =~= out.pairs());
        while i < n
            invariant
                n == self.pairs().len(),
                crate::strmap::distinct_keys(self.pairs()),
                i <= n,
                out.pairs() == self.pairs().take(i as int),
            decreases n - i,
        {
            proof {
                crate::strmap::lemma_next_pair(self.pairs(), i as int);
            }
            let v = self.value_at(i);
            out.insert(self.key_at(i).clone(), (v.0.clone(), v.1.clone()));
            i += 1;
        }
        assert(self.pairs().take(n as int) =~= self.pairs());
        out
    }
}

impl Clone for Cfg {
    fn clone(&self) -> (r: Self)
        ensures
            r@ == self@,
    {
        Cfg(self.0.clone())
    }
}

impl View for Cfg {
    type V = Map<Seq<char>, CValueView>;

    open spec fn view(&self) -> Map<Seq<char>, CValueView> {
        self.0@
    }
}

/// The defaults have the key, with a sound value of the given kind.
pub open spec fn has_kind(
    d: Map<Seq<char>, (Seq<char>, CValueView)>,
    key: Seq<char>,
    kind: Kind,
) -> bool {
    d.contains_key(key) && kind_of(d[key].1) == kind && is_sound(d[key].1)
}

/// Every value that is set has a default, is of its default's kind, and is
/// sound.
pub open spec fn conforms(
    cfg: Map<Seq<char>, CValueView>,
    d: Map<Seq<char>, (Seq<char>, CValueView)>,
) -> bool {
    forall|k: Seq<char>| #[trigger]
        cfg.contains_key(k) ==> d.contains_key(k) && kind_of(cfg[k]) == kind_of(d[k].1)
            && is_sound(cfg[k])
}

/// The value that holds for a key: the one that is set, else the default.
pub open spec fn resolved(
    cfg: Map<Seq<char>, CValueView>,
    d: Map<Seq<char>, (Seq<char>, CValueView)>,
    key: Seq<char>,
) -> CValueView {
    if cfg.contains_key(key) {
        cfg[key]
    } else {
        d[key].1
    }
}

/// Where the settings conform to the defaults, a key with a default resolves
/// to a sound value of the default's kind.
pub proof fn lemma_resolved_kind(
    cfg: Map<Seq<char>, CValueView>,
    d: Map<Seq<char>, (Seq<char>, CValueView)>,
    key: Seq<char>,
    kind: Kind,
)
    requires
        conforms(cfg, d),
        has_kind(d, key, kind),
    ensures
        kind_of(resolved(cfg, d, key)) == kind,
        is_sound(resolved(cfg, d, key)),
{
}

/// The defaults with each value that is set entered in place of its default,
/// under the default's label.
pub open spec fn with_vals(
    d: Map<Seq<char>, (Seq<char>, CValueView)>,
    cfg: Map<Seq<char>, CValueView>,
) -> Map<Seq<char>, (Seq<char>, CValueView)> {
    Map::new(
        |k: Seq<char>| d.contains_key(k),
        |k: Seq<char>|
            if cfg.contains_key(k) {
                (d[k].0, cfg[k])
            } else {
                d[k]
            },
    )
}

impl CValue {
    /// Whether the value is sound: a choice must point into its choices.
    pub fn is_valid(&self) -> (r: bool)
        ensures
            r == is_sound(self@),
    {
        match self {
            CValue::OneOff(c, i) => *i < c.len(),
            _ => true,
        }
    }
}

impl Cfg {
    /// Whether every value that is set has a default, is of its default's
    /// kind, and is sound.
    pub fn conforms_to(&self, default: &Defaults) -> (r: bool)
        ensures
            r == conforms(self@, default@),
    {
        let ghost ps = self.0.pairs();
        let n = self.0.len();
        let mut i: usize = 0;
        while i < n
            invariant
                n == ps.len(),
                ps == self.0.pairs(),
                crate::strmap::distinct_keys(ps),
                i <= n,
                forall|j: int|
                    0 <= j < i ==> default@.contains_key(#[trigger] ps[j].0) && kind_of(ps[j].1)
                        == kind_of(default@[ps[j].0].1) && is_sound(ps[j].1),
            decreases n - i,
        {
            let k = self.0.key_at(i);
            let v = self.0.value_at(i);
            let fits = match default.get(k.as_str()) {
                Some(entry) => entry.1.kind() == v.kind() && v.is_valid(),
                None => false,
            };
            if !fits {
                proof {
                    crate::strmap::lemma_assoc_map_entry(ps, i as int);
                    assert(self@.contains_key(ps[i as int].0));
                }
                return false;
            }
            i += 1;
        }
        proof {
            assert forall|k: Seq<char>| #[trigger] self@.contains_key(k) implies default@.contains_key(
                k,
            ) && kind_of(self@[k]) == kind_of(default@[k].1) && is_sound(self@[k]) by {
                crate::strmap::lemma_assoc_map_dom(ps, k);
                let j = choose|j: int| 0 <= j < ps.len() && #[trigger] ps[j].0 == k;
                crate::strmap::lemma_assoc_map_entry(ps, j);
            }
        }
        true
    }

    /// Sets the key, or sets it back to its default: with `to_default` the
    /// key is no longer set, so that its default holds; without it the key is
    /// set to the value that is its default now, and keeps that value when
    /// the default changes.
    pub fn set_default(&mut self, key: String, to_default: bool, default: &Defaults)
        requires
            !to_default ==> default@.contains_key(key@),
        ensures
            final(self)@ == (if to_default {
                old(self)@.remove(key@)
            } else {
                old(self)@.insert(key@, default@[key@].1)
            }),
    {
        if to_default {
            let _ = self.0.remove(key.as_str());
        } else {
            match default.get(key.as_str()) {
                Some(entry) => {
                    let value = entry.1.clone();
                    self.0.insert(key, value);
                },
                None => {},
            }
        }
    }

    /// Settings with nothing set.
    pub fn new() -> (r: Self)
        ensures
            r@ == Map::<Seq<char>, CValueView>::empty(),
    {
        Cfg(StrMap::new())
    }

    /// The value that holds for the key: the one that is set, else the
    /// default.
    pub fn get_or_default(&self, key: &str, default: &Defaults) -> (r: CValue)
        requires
            self@.contains_key(key@) || default@.contains_key(key@),
        ensures
            r@ == resolved(self@, default@, key@),
    {
        match self.0.get(key) {
            Some(v) => v.clone(),
            None => match default.get(key) {
                Some(entry) => entry.1.clone(),
                None => CValue::Bool(false),
            },
        }
    }
}

/// A text that may be left empty: nothing where it is empty.
pub open spec fn given(s: Seq<char>) -> Option<Seq<char>> {
    if s.len() == 0 {
        None
    } else {
        Some(s)
    }
}

/// The toggle that a key resolves to.
pub open spec fn toggle(
    cfg: Map<Seq<char>, CValueView>,
    d: Map<Seq<char>, (Seq<char>, CValueView)>,
    key: Seq<char>,
) -> bool {
    resolved(cfg, d, key)->Bool_0
}

/// The text that a key resolves to.
pub open spec fn text(
    cfg: Map<Seq<char>, CValueView>,
    d: Map<Seq<char>, (Seq<char>, CValueView)>,
    key: Seq<char>,
) -> Seq<char> {
    text_of(resolved(cfg, d, key))
}

/// A kind whose values can be read as one text.
pub open spec fn is_textual_kind(kind: Kind) -> bool {
    kind == Kind::Str || kind == Kind::OneOff || kind == Kind::PickFile || kind == Kind::PickFolder
}

/// The text that holds for a key whose default is textual.
pub fn setting_text(cfg: &Cfg, default: &Defaults, key: &str) -> (r: String)
    requires
        conforms(cfg@, default@),
        default@.contains_key(key@),
        is_textual_kind(kind_of(default@[key@].1)),
        is_sound(default@[key@].1),
    ensures
        r@ == text_of(resolved(cfg@, default@, key@)),
{
    cfg.get_or_default(key, default).as_string()
}

/// The toggle that holds for a key whose default is a toggle.
pub fn setting_bool(cfg: &Cfg, default: &Defaults, key: &str) -> (r: bool)
    requires
        conforms(cfg@, default@),
        has_kind(default@, key@, Kind::Bool),
    ensures
        resolved(cfg@, default@, key@) is Bool,
        r == resolved(cfg@, default@, key@)->Bool_0,
{
    cfg.get_or_default(key, default).as_bool()
}

/// The list that holds for a key whose default is a list.
pub fn setting_list(cfg: &Cfg, default: &Defaults, key: &str) -> (r: Vec<String>)
    requires
        conforms(cfg@, default@),
        has_kind(default@, key@, Kind::StrArr),
    ensures
        resolved(cfg@, default@, key@) is StrArr,
        texts(r@) == resolved(cfg@, default@, key@)->StrArr_0,
{
    cfg.get_or_default(key, default).as_strarr()
}

/// The defaults `base` with the values of `cfg` in place of the defaults that
/// they replace. Every key that is set must have a default.
pub fn override_defaults(base: Defaults, cfg: &Cfg) -> (r: Defaults)
    requires
        forall|k: Seq<char>| cfg@.contains_key(k) ==> base@.contains_key(k),
    ensures
        r@ == with_vals(base@, cfg@),
{
    let mut out = base;
    let ghost d = out@;
    let ghost ps = cfg.0.pairs();
    let n = cfg.0.len();
    let mut i: usize = 0;
    assert(out@ =~= with_vals(d, crate::strmap::assoc_map(ps.take(0))));
    while i < n
        invariant
            n == ps.len(),
            ps == cfg.0.pairs(),
            crate::strmap::distinct_keys(ps),
            i <= n,
            forall|k: Seq<char>| cfg@.contains_key(k) ==> d.contains_key(k),
            out@ == with_vals(d, crate::strmap::assoc_map(ps.take(i as int))),
        decreases n - i,
    {
        let k = cfg.0.key_at(i);
        let v = cfg.0.value_at(i);
        proof {
            crate::strmap::lemma_assoc_map_entry(ps, i as int);
            let t0 = ps.take(i as int);
            let t1 = ps.take(i + 1);
            assert(t1.drop_last() =~= t0);
            crate::strmap::lemma_assoc_map_dom(t0, k@);
            if crate::strmap::has_key(t0, k@) {
                let j = choose|j: int| 0 <= j < t0.len() && #[trigger] t0[j].0 == k@;
                assert(ps[j].0 != ps[i as int].0);
            }
        }
        match out.get(k.as_str()) {
            Some(entry) => {
                let label = entry.0.clone();
                out.insert(k.clone(), (label, v.clone()));
            },
            None => {},
        }
        proof {
            assert(out@ =~= with_vals(d, crate::strmap::assoc_map(ps.take(i + 1))));
        }
        i += 1;
    }
    assert(ps.take(n as int) =~= ps);
    out
}

} // verus!
