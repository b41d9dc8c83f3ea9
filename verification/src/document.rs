//! Settings files as plain values: reading the settings that a file sets, and
//! laying settings out as the sections of a file.

use vstd::prelude::*;

use crate::config::{
    coerced, conforms, is_sound, kind_of, position_from, CValue, CValueView, Cfg, Defaults,
};
use crate::defaults::{
    config_order, default_config, default_settings, order_of, section_order,
};
use crate::format::{signed_decimal, signed_to_string};
use crate::paths::{
    after_last, is_free_of, lemma_no_last_index, lemma_part_after_last, part_after_last,
};
use crate::strmap::StrMap;
use crate::text::{same_text, texts};

verus! {

/// A value of a settings file. A number with a fraction and a date are held
/// as they are written; of an array, each item is held by its text if it is
/// one, and as `None` if it is anything else.
pub enum TomlValue {
    String(String),
    Integer(i64),
    Float(String),
    Boolean(bool),
    Datetime(String),
    Array(Vec<Option<String>>),
}

/// A `TomlValue` as mathematical values.
pub enum TomlValueView {
    String(Seq<char>),
    Integer(i64),
    Float(Seq<char>),
    Boolean(bool),
    Datetime(Seq<char>),
    Array(Seq<Option<Seq<char>>>),
}

/// The views of the items of an array.
pub open spec fn items(a: Seq<Option<String>>) -> Seq<Option<Seq<char>>> {
    Seq::new(
        a.len(),
        |i: int|
            match a[i] {
                Some(s) => Some(s@),
                None => None,
            },
    )
}

impl View for TomlValue {
    type V = TomlValueView;

    open spec fn view(&self) -> TomlValueView {
        match self {
            TomlValue::String(s) => TomlValueView::String(s@),
            TomlValue::Integer(i) => TomlValueView::Integer(*i),
            TomlValue::Float(f) => TomlValueView::Float(f@),
            TomlValue::Boolean(b) => TomlValueView::Boolean(*b),
            TomlValue::Datetime(d) => TomlValueView::Datetime(d@),
            TomlValue::Array(a) => TomlValueView::Array(items(a@)),
        }
    }
}

/// A table of a settings file: its name and its entries, in their order.
pub struct Section {
    pub name: String,
    pub entries: Vec<(String, TomlValue)>,
}

/// A `Section` as mathematical values.
pub struct SectionView {
    pub name: Seq<char>,
    pub entries: Seq<(Seq<char>, TomlValueView)>,
}

/// The views of a list of entries.
pub open spec fn entry_views(v: Seq<(String, TomlValue)>) -> Seq<(Seq<char>, TomlValueView)> {
    Seq::new(v.len(), |i: int| (v[i].0@, v[i].1@))
}

impl View for Section {
    type V = SectionView;

    open spec fn view(&self) -> SectionView {
        SectionView { name: self.name@, entries: entry_views(self.entries@) }
    }
}

/// The views of a list of sections.
pub open spec fn section_views(v: Seq<Section>) -> Seq<SectionView> {
    Seq::new(v.len(), |i: int| v[i]@)
}

/// The texts among the items of an array, in their order.
pub open spec fn strings_of(a: Seq<Option<Seq<char>>>) -> Seq<Seq<char>>
    decreases a.len(),
{
    if a.len() == 0 {
        Seq::empty()
    } else {
        match a.last() {
            Some(s) => strings_of(a.drop_last()).push(s),
            None => strings_of(a.drop_last()),
        }
    }
}

/// The settings value that a value of a settings file stands for. A number
/// becomes the text that spells it, an array the list of the texts in it.
pub open spec fn from_toml(v: TomlValueView) -> CValueView {
    match v {
        TomlValueView::String(s) => CValueView::Str(s),
        TomlValueView::Integer(i) => CValueView::Str(signed_decimal(i as int)),
        TomlValueView::Float(f) => CValueView::Str(f),
        TomlValueView::Boolean(b) => CValueView::Bool(b),
        TomlValueView::Datetime(d) => CValueView::Str(d),
        TomlValueView::Array(a) => CValueView::StrArr(strings_of(a)),
    }
}

/// The value of a settings file that a sound settings value is written as.
/// A choice is written as the chosen text, a path as its text.
pub open spec fn to_toml(v: CValueView) -> TomlValueView {
    match v {
        CValueView::Str(s) => TomlValueView::String(s),
        CValueView::Bool(b) => TomlValueView::Boolean(b),
        CValueView::StrArr(a) => TomlValueView::Array(Seq::new(a.len(), |i: int| Some(a[i]))),
        CValueView::OneOff(c, i) => TomlValueView::String(c[i as int]),
        CValueView::PickFile(s) => TomlValueView::String(s),
        CValueView::PickFolder(s) => TomlValueView::String(s),
    }
}

/// What comes before the name of an entry to make its key: nothing in the
/// sections `metadata` and `general`, else the section's name and a colon.
pub open spec fn section_prefix(name: Seq<char>) -> Seq<char> {
    if name == "metadata"@ || name == "general"@ {
        Seq::empty()
    } else {
        name + ":"@
    }
}

/// The settings with one entry of a section taken in: under its key, if the
/// defaults know the key and the value fits the default's kind. Any other
/// entry is passed over.
pub open spec fn entry_added(
    cfg: Map<Seq<char>, CValueView>,
    d: Map<Seq<char>, (Seq<char>, CValueView)>,
    prefix: Seq<char>,
    entry: (Seq<char>, TomlValueView),
) -> Map<Seq<char>, CValueView> {
    let key = prefix + entry.0;
    if d.contains_key(key) {
        match coerced(from_toml(entry.1), d[key].1) {
            Some(v) => cfg.insert(key, v),
            None => cfg,
        }
    } else {
        cfg
    }
}

/// The settings with the entries of a section taken in, in their order.
pub open spec fn entries_added(
    cfg: Map<Seq<char>, CValueView>,
    d: Map<Seq<char>, (Seq<char>, CValueView)>,
    prefix: Seq<char>,
    entries: Seq<(Seq<char>, TomlValueView)>,
) -> Map<Seq<char>, CValueView>
    decreases entries.len(),
{
    if entries.len() == 0 {
        cfg
    } else {
        entry_added(entries_added(cfg, d, prefix, entries.drop_last()), d, prefix, entries.last())
    }
}

/// The settings with the sections of a file taken in, in their order.
pub open spec fn sections_added(
    cfg: Map<Seq<char>, CValueView>,
    d: Map<Seq<char>, (Seq<char>, CValueView)>,
    sections: Seq<SectionView>,
) -> Map<Seq<char>, CValueView>
    decreases sections.len(),
{
    if sections.len() == 0 {
        cfg
    } else {
        entries_added(
            sections_added(cfg, d, sections.drop_last()),
            d,
            section_prefix(sections.last().name),
            sections.last().entries,
        )
    }
}

/// The entries that a section of a written file holds: for each of the keys
/// that is set, in the order of the keys, the last part of the key and the
/// value.
pub open spec fn written_entries(cfg: Map<Seq<char>, CValueView>, keys: Seq<Seq<char>>) -> Seq<
    (Seq<char>, TomlValueView),
>
    decreases keys.len(),
{
    if keys.len() == 0 {
        Seq::empty()
    } else {
        let before = written_entries(cfg, keys.drop_last());
        if cfg.contains_key(keys.last()) {
            before.push((part_after_last(keys.last(), ':'), to_toml(cfg[keys.last()])))
        } else {
            before
        }
    }
}

/// The sections of a written file: one for each section of the order that
/// has an entry, under the last part of its name.
pub open spec fn written_sections(
    cfg: Map<Seq<char>, CValueView>,
    order: Seq<(Seq<char>, Seq<Seq<char>>)>,
) -> Seq<SectionView>
    decreases order.len(),
{
    if order.len() == 0 {
        Seq::empty()
    } else {
        let before = written_sections(cfg, order.drop_last());
        let entries = written_entries(cfg, order.last().1);
        if entries.len() > 0 {
            before.push(SectionView { name: part_after_last(order.last().0, ':'), entries })
        } else {
            before
        }
    }
}

/// Every value that is set is sound.
pub open spec fn all_sound(cfg: Map<Seq<char>, CValueView>) -> bool {
    forall|k: Seq<char>| cfg.contains_key(k) ==> is_sound(#[trigger] cfg[k])
}

impl CValue {
    /// The settings value that a value of a settings file stands for.
    pub fn from_toml_value(v: &TomlValue) -> (r: CValue)
        ensures
            r@ == from_toml(v@),
            is_sound(r@),
    {
        match v {
            TomlValue::String(s) => CValue::Str(s.clone()),
            TomlValue::Integer(i) => CValue::Str(signed_to_string(*i)),
            TomlValue::Float(f) => CValue::Str(f.clone()),
            TomlValue::Boolean(b) => CValue::Bool(*b),
            TomlValue::Datetime(d) => CValue::Str(d.clone()),
            TomlValue::Array(a) => {
                let ghost all = items(a@);
                let mut out: Vec<String> = Vec::new();
                let mut i: usize = 0;
                assert(texts(out@) =~= strings_of(all.take(0)));
                while i < a.len()
                    invariant
                        all == items(a@),
                        i <= a@.len(),
                        texts(out@) == strings_of(all.take(i as int)),
                    decreases a@.len() - i,
                {
                    proof {
                        assert(all.take(i + 1).drop_last() =~= all.take(i as int));
                    }
                    let ghost before = texts(out@);
                    match &a[i] {
                        Some(s) => {
                            out.push(s.clone());
                            assert(texts(out@) =~= before.push(s@));
                        },
                        None => {},
                    }
                    i += 1;
                }
                assert(all.take(i as int) =~= all);
                CValue::StrArr(out)
            },
        }
    }

    /// The value of a settings file that the settings value is written as.
    pub fn to_toml_value(&self) -> (r: TomlValue)
        requires
            is_sound(self@),
        ensures
            r@ == to_toml(self@),
    {
        match self {
            CValue::Str(s) => TomlValue::String(s.clone()),
            CValue::Bool(b) => TomlValue::Boolean(*b),
            CValue::StrArr(arr) => {
                let mut out: Vec<Option<String>> = Vec::new();
                let mut i: usize = 0;
                while i < arr.len()
                    invariant
                        i <= arr@.len(),
                        out@.len() == i,
                        forall|j: int| 0 <= j < i ==> out@[j] is Some && out@[j].unwrap()@ == arr@[j]@,
                    decreases arr@.len() - i,
                {
                    out.push(Some(arr[i].clone()));
                    i += 1;
                }
                assert(items(out@) =~= Seq::new(
                    texts(arr@).len(),
                    |i: int| Some(texts(arr@)[i]),
                ));
                TomlValue::Array(out)
            },
            CValue::OneOff(c, i) => TomlValue::String(c[*i].clone()),
            CValue::PickFile(s) => TomlValue::String(s.clone()),
            CValue::PickFolder(s) => TomlValue::String(s.clone()),
        }
    }
}

/// Taking an entry in keeps the settings conforming to the defaults.
pub proof fn lemma_entry_conforms(
    cfg: Map<Seq<char>, CValueView>,
    d: Map<Seq<char>, (Seq<char>, CValueView)>,
    key: Seq<char>,
    v: CValueView,
)
    requires
        conforms(cfg, d),
        d.contains_key(key),
        kind_of(v) == kind_of(d[key].1),
        is_sound(v),
    ensures
        conforms(cfg.insert(key, v), d),
{
    assert forall|k: Seq<char>| #[trigger] cfg.insert(key, v).contains_key(k) implies d.contains_key(
        k,
    ) && kind_of(cfg.insert(key, v)[k]) == kind_of(d[k].1) && is_sound(cfg.insert(key, v)[k]) by {
        if k != key {
            assert(cfg.contains_key(k));
        }
    }
}

/// Takes the entries of a section into the settings.
fn add_entries(out: &mut StrMap<CValue>, default: &Defaults, prefix: &str, entries: &Vec<
    (String, TomlValue),
>)
    requires
        conforms(old(out)@, default@),
    ensures
        final(out)@ == entries_added(old(out)@, default@, prefix@, entry_views(entries@)),
        conforms(final(out)@, default@),
{
    let ghost start = out@;
    let ghost all = entry_views(entries@);
    let mut i: usize = 0;
    assert(all.take(0) =~= Seq::<(Seq<char>, TomlValueView)>::empty());
    while i < entries.len()
        invariant
            all == entry_views(entries@),
            i <= entries@.len(),
            out@ == entries_added(start, default@, prefix@, all.take(i as int)),
            conforms(out@, default@),
        decreases entries@.len() - i,
    {
        proof {
            assert(all.take(i + 1).drop_last() =~= all.take(i as int));
        }
        let name = prefix.to_owned().concat(entries[i].0.as_str());
        match default.get(name.as_str()) {
            Some(a) => {
                match CValue::from_toml_value(&entries[i].1).try_coerce(&a.1) {
                    Some(to_add) => {
                        proof {
                            lemma_entry_conforms(out@, default@, name@, to_add@);
                        }
                        out.insert(name, to_add);
                    },
                    None => {},
                }
            },
            None => {},
        }
        i += 1;
    }
    assert(all.take(i as int) =~= all);
}

impl Cfg {
    /// The settings that a settings file sets, read against the given
    /// defaults. An entry under an unknown key, or of a kind that does not fit
    /// its default, is passed over.
    pub fn from_sections(doc: &Vec<Section>, default: &Defaults) -> (r: Cfg)
        ensures
            r@ == sections_added(Map::empty(), default@, section_views(doc@)),
            conforms(r@, default@),
    {
        let ghost all = section_views(doc@);
        let mut out: StrMap<CValue> = StrMap::new();
        let mut i: usize = 0;
        assert(all.take(0) =~= Seq::<SectionView>::empty());
        while i < doc.len()
            invariant
                all == section_views(doc@),
                i <= doc@.len(),
                out@ == sections_added(Map::empty(), default@, all.take(i as int)),
                conforms(out@, default@),
            decreases doc@.len() - i,
        {
            proof {
                assert(all.take(i + 1).drop_last() =~= all.take(i as int));
            }
            let k = &doc[i].name;
            let prefix = if same_text(k.as_str(), "metadata") || same_text(k.as_str(), "general") {
                String::new()
            } else {
                k.clone().concat(":")
            };
            add_entries(&mut out, default, prefix.as_str(), &doc[i].entries);
            i += 1;
        }
        assert(all.take(i as int) =~= all);
        Cfg(out)
    }

    /// The settings that a settings file sets.
    pub fn from_toml(doc: &Vec<Section>) -> (r: Cfg)
        ensures
            r@ == sections_added(Map::empty(), default_settings(), section_views(doc@)),
            conforms(r@, default_settings()),
    {
        let default = default_config();
        Cfg::from_sections(doc, &default)
    }

    /// Whether every value that is set is sound.
    pub fn is_all_sound(&self) -> (r: bool)
        ensures
            r == all_sound(self@),
    {
        let ghost ps = self.0.pairs();
        let n = self.0.len();
        let mut i: usize = 0;
        while i < n
            invariant
                n == ps.len(),
                ps == self.0.pairs(),
                crate::strmap::distinct_keys(ps),
                i <= n,
                forall|j: int| 0 <= j < i ==> is_sound(#[trigger] ps[j].1),
            decreases n - i,
        {
            if !self.0.value_at(i).is_valid() {
                proof {
                    crate::strmap::lemma_assoc_map_entry(ps, i as int);
                    assert(self@.contains_key(ps[i as int].0));
                    assert(!is_sound(self@[ps[i as int].0]));
                }
                return false;
            }
            i += 1;
        }
        proof {
            assert forall|k: Seq<char>| self@.contains_key(k) implies is_sound(
                #[trigger] self@[k],
            ) by {
                crate::strmap::lemma_assoc_map_dom(ps, k);
                let j = choose|j: int| 0 <= j < ps.len() && #[trigger] ps[j].0 == k;
                crate::strmap::lemma_assoc_map_entry(ps, j);
            }
        }
        true
    }

    /// The sections to write the settings as.
    pub fn to_toml(&self) -> (r: Vec<Section>)
        requires
            all_sound(self@),
        ensures
            section_views(r@) == written_sections(self@, section_order()),
    {
        let order = config_order();
        self.to_sections(&order)
    }

    /// The sections to write the settings as, for the given order of
    /// sections and keys.
    pub fn to_sections(&self, order: &Vec<(String, Vec<String>)>) -> (r: Vec<Section>)
        requires
            all_sound(self@),
        ensures
            section_views(r@) == written_sections(self@, order_of(order@)),
    {
        let ghost all = order_of(order@);
        let mut out: Vec<Section> = Vec::new();
        let mut i: usize = 0;
        assert(all.take(0) =~= Seq::<(Seq<char>, Seq<Seq<char>>)>::empty());
        assert(section_views(out@) =~= written_sections(self@, all.take(0)));
        while i < order.len()
            invariant
                all == order_of(order@),
                all_sound(self@),
                i <= order@.len(),
                section_views(out@) == written_sections(self@, all.take(i as int)),
            decreases order@.len() - i,
        {
            proof {
                assert(all.take(i + 1).drop_last() =~= all.take(i as int));
            }
            let keys = &order[i].1;
            let ghost ks = texts(keys@);
            let mut entries: Vec<(String, TomlValue)> = Vec::new();
            let mut j: usize = 0;
            assert(ks.take(0) =~= Seq::<Seq<char>>::empty());
            assert(entry_views(entries@) =~= written_entries(self@, ks.take(0)));
            while j < keys.len()
                invariant
                    ks == texts(keys@),
                    all_sound(self@),
                    j <= keys@.len(),
                    entry_views(entries@) == written_entries(self@, ks.take(j as int)),
                decreases keys@.len() - j,
            {
                proof {
                    assert(ks.take(j + 1).drop_last() =~= ks.take(j as int));
                }
                let ghost before = entry_views(entries@);
                match self.0.get(keys[j].as_str()) {
                    Some(value) => {
                        entries.push((after_last(keys[j].as_str(), ':'), value.to_toml_value()));
                        assert(entry_views(entries@) =~= before.push(
                            (part_after_last(ks[j as int], ':'), to_toml(self@[ks[j as int]])),
                        ));
                    },
                    None => {},
                }
                j += 1;
            }
            assert(ks.take(j as int) =~= ks);
            let ghost before = section_views(out@);
            if entries.len() > 0 {
                let section = Section { name: after_last(order[i].0.as_str(), ':'), entries };
                out.push(section);
                assert(section_views(out@) =~= before.push(section@));
            }
            i += 1;
        }
        assert(all.take(i as int) =~= all);
        out
    }
}

/// The texts of an array in which every item is a text are those items.
pub proof fn lemma_strings_of_texts(a: Seq<Seq<char>>)
    ensures
        strings_of(Seq::new(a.len(), |i: int| Some(a[i]))) == a,
    decreases a.len(),
{
    let items = Seq::new(a.len(), |i: int| Some(a[i]));
    if a.len() > 0 {
        let front = a.drop_last();
        lemma_strings_of_texts(front);
        assert(items.drop_last() =~= Seq::new(front.len(), |i: int| Some(front[i])));
        assert(strings_of(items) =~= a);
    } else {
        assert(strings_of(items) =~= a);
    }
}

/// A value that is written and read back is itself: a sound value of the
/// kind of its default, written as a value of a settings file, read and made
/// to fit the default, is the value that was written. For a choice this
/// holds where the choices are those of the default and the chosen text
/// does not stand earlier among them.
pub proof fn lemma_value_read_back(v: CValueView, default: CValueView)
    requires
        is_sound(v),
        kind_of(v) == kind_of(default),
        v is OneOff ==> v->OneOff_0 == default->OneOff_0 && position_from(
            v->OneOff_0,
            v->OneOff_0[v->OneOff_1 as int],
            0,
        ) == Some(v->OneOff_1 as int),
    ensures
        coerced(from_toml(to_toml(v)), default) == Some(v),
{
    match v {
        CValueView::StrArr(a) => {
            lemma_strings_of_texts(a);
        },
        _ => {},
    }
}

/// A key that is written and read back is itself, in a section of a runner
/// or of the launcher: the key is the section's name, a colon and a label,
/// the entry is written under the label in the section of that name, and
/// the name, a colon and the label are read back as the key.
pub proof fn lemma_key_read_back(section: Seq<char>, name: Seq<char>, label: Seq<char>)
    requires
        is_free_of(name, ':'),
        is_free_of(label, ':'),
        name != "metadata"@,
        name != "general"@,
        part_after_last(section, ':') == name,
    ensures
        section_prefix(part_after_last(section, ':')) + part_after_last(
            name.push(':') + label,
            ':',
        ) == name.push(':') + label,
{
    reveal_strlit(":");
    assert(":"@ =~= seq![':']);
    lemma_part_after_last(name, ':', label);
    assert(name + ":"@ =~= name.push(':'));
}

/// A key that is written and read back is itself, in the sections
/// `metadata` and `general`: there the key is the label alone.
pub proof fn lemma_plain_key_read_back(section: Seq<char>, label: Seq<char>)
    requires
        is_free_of(label, ':'),
        section == "metadata"@ || section == "general"@,
    ensures
        section_prefix(part_after_last(section, ':')) + part_after_last(label, ':') == label,
{
    reveal_strlit("metadata");
    reveal_strlit("general");
    assert forall|i: int| 0 <= i < section.len() implies section[i] != ':' by {
        if section == "metadata"@ {
            assert("metadata"@.len() == 8);
            assert("metadata"@[0] == 'm' && "metadata"@[1] == 'e' && "metadata"@[2] == 't'
                && "metadata"@[3] == 'a' && "metadata"@[4] == 'd' && "metadata"@[5] == 'a'
                && "metadata"@[6] == 't' && "metadata"@[7] == 'a');
        } else {
            assert("general"@.len() == 7);
            assert("general"@[0] == 'g' && "general"@[1] == 'e' && "general"@[2] == 'n'
                && "general"@[3] == 'e' && "general"@[4] == 'r' && "general"@[5] == 'a'
                && "general"@[6] == 'l');
        }
    }
    lemma_no_last_index(section, ':');
    lemma_no_last_index(label, ':');
    assert(Seq::<char>::empty() + label =~= label);
}

/// The key is read back from where it is written: the prefix of its section
/// and the label under which it is written make up the key again.
pub open spec fn is_rebuilt(section: Seq<char>, key: Seq<char>) -> bool {
    section_prefix(part_after_last(section, ':')) + part_after_last(key, ':') == key
}

/// Every key of the order is read back from where it is written.
pub open spec fn rebuilds_keys(order: Seq<(Seq<char>, Seq<Seq<char>>)>) -> bool {
    forall|i: int, j: int|
        0 <= i < order.len() && 0 <= j < order[i].1.len() ==> is_rebuilt(
            order[i].0,
            #[trigger] order[i].1[j],
        )
}

/// The key stands in some section of the order.
pub open spec fn is_listed(order: Seq<(Seq<char>, Seq<Seq<char>>)>, key: Seq<char>) -> bool {
    exists|i: int, j: int|
        0 <= i < order.len() && 0 <= j < order[i].1.len() && #[trigger] order[i].1[j] == key
}

/// Every value that is set has a default and is read back as itself.
pub open spec fn reads_back(
    cfg: Map<Seq<char>, CValueView>,
    d: Map<Seq<char>, (Seq<char>, CValueView)>,
) -> bool {
    forall|k: Seq<char>| #[trigger]
        cfg.contains_key(k) ==> d.contains_key(k) && coerced(from_toml(to_toml(cfg[k])), d[k].1)
            == Some(cfg[k])
}

/// The settings `acc` with those of `cfg` that stand under one of the keys
/// entered over them.
pub open spec fn with_keys(
    acc: Map<Seq<char>, CValueView>,
    cfg: Map<Seq<char>, CValueView>,
    keys: Seq<Seq<char>>,
) -> Map<Seq<char>, CValueView> {
    Map::new(
        |k: Seq<char>| acc.contains_key(k) || (cfg.contains_key(k) && keys.contains(k)),
        |k: Seq<char>|
            if cfg.contains_key(k) && keys.contains(k) {
                cfg[k]
            } else {
                acc[k]
            },
    )
}

/// Reading the entries that one section is written with enters the settings
/// that stand under its keys.
pub proof fn lemma_section_read_back(
    acc: Map<Seq<char>, CValueView>,
    cfg: Map<Seq<char>, CValueView>,
    d: Map<Seq<char>, (Seq<char>, CValueView)>,
    section: Seq<char>,
    keys: Seq<Seq<char>>,
)
    requires
        reads_back(cfg, d),
        forall|j: int| 0 <= j < keys.len() ==> is_rebuilt(section, #[trigger] keys[j]),
    ensures
        entries_added(
            acc,
            d,
            section_prefix(part_after_last(section, ':')),
            written_entries(cfg, keys),
        ) == with_keys(acc, cfg, keys),
    decreases keys.len(),
{
    let prefix = section_prefix(part_after_last(section, ':'));
    if keys.len() == 0 {
        assert(with_keys(acc, cfg, keys) =~= acc);
    } else {
        let front = keys.drop_last();
        let key = keys.last();
        assert forall|j: int| 0 <= j < front.len() implies is_rebuilt(section, #[trigger] front[j]) by {
            assert(front[j] == keys[j]);
        }
        lemma_section_read_back(acc, cfg, d, section, front);
        let before = written_entries(cfg, front);
        let read = entries_added(acc, d, prefix, before);
        assert(keys[keys.len() - 1] == key);
        assert(is_rebuilt(section, key));
        assert forall|k: Seq<char>| keys.contains(k) <==> (front.contains(k) || k == key) by {
            if keys.contains(k) {
                let j = choose|j: int| 0 <= j < keys.len() && keys[j] == k;
                if j < keys.len() - 1 {
                    assert(front[j] == k);
                }
            }
            if front.contains(k) {
                let j = choose|j: int| 0 <= j < front.len() && front[j] == k;
                assert(keys[j] == k);
            }
        }
        if cfg.contains_key(key) {
            let entry = (part_after_last(key, ':'), to_toml(cfg[key]));
            assert(written_entries(cfg, keys) == before.push(entry));
            assert(before.push(entry).drop_last() =~= before);
            assert(prefix + entry.0 == key);
            assert(entry_added(read, d, prefix, entry) == read.insert(key, cfg[key]));
            assert(read.insert(key, cfg[key]) =~= with_keys(acc, cfg, keys));
        } else {
            assert(written_entries(cfg, keys) == before);
            assert(with_keys(acc, cfg, front) =~= with_keys(acc, cfg, keys));
        }
    }
}

/// The settings of `cfg` that stand in some section of the order.
pub open spec fn listed_part(
    cfg: Map<Seq<char>, CValueView>,
    order: Seq<(Seq<char>, Seq<Seq<char>>)>,
) -> Map<Seq<char>, CValueView> {
    Map::new(|k: Seq<char>| cfg.contains_key(k) && is_listed(order, k), |k: Seq<char>| cfg[k])
}

/// Reading what is written gives the settings that stand in the order.
pub proof fn lemma_listed_read_back(
    cfg: Map<Seq<char>, CValueView>,
    d: Map<Seq<char>, (Seq<char>, CValueView)>,
    order: Seq<(Seq<char>, Seq<Seq<char>>)>,
)
    requires
        reads_back(cfg, d),
        rebuilds_keys(order),
    ensures
        sections_added(Map::empty(), d, written_sections(cfg, order)) == listed_part(cfg, order),
    decreases order.len(),
{
    if order.len() == 0 {
        assert(listed_part(cfg, order) =~= Map::<Seq<char>, CValueView>::empty());
    } else {
        let front = order.drop_last();
        let section = order.last().0;
        let keys = order.last().1;
        assert forall|i: int, j: int|
            0 <= i < front.len() && 0 <= j < front[i].1.len() implies is_rebuilt(
            front[i].0,
            #[trigger] front[i].1[j],
        ) by {
            assert(front[i] == order[i]);
            assert(is_rebuilt(order[i].0, order[i].1[j]));
        }
        lemma_listed_read_back(cfg, d, front);
        let acc = sections_added(Map::empty(), d, written_sections(cfg, front));
        assert forall|j: int| 0 <= j < keys.len() implies is_rebuilt(section, #[trigger] keys[j]) by {
            assert(is_rebuilt(order[order.len() - 1].0, order[order.len() - 1].1[j]));
        }
        lemma_section_read_back(acc, cfg, d, section, keys);
        let before = written_sections(cfg, front);
        let entries = written_entries(cfg, keys);
        if entries.len() > 0 {
            let written = SectionView { name: part_after_last(section, ':'), entries };
            assert(written_sections(cfg, order) == before.push(written));
            assert(before.push(written).drop_last() =~= before);
        } else {
            assert(written_sections(cfg, order) == before);
        }
        assert(sections_added(Map::empty(), d, written_sections(cfg, order)) == with_keys(
            acc,
            cfg,
            keys,
        ));
        assert forall|k: Seq<char>| is_listed(order, k) <==> (is_listed(front, k) || keys.contains(
            k,
        )) by {
            if is_listed(order, k) {
                let (i, j) = choose|i: int, j: int|
                    0 <= i < order.len() && 0 <= j < order[i].1.len() && #[trigger] order[i].1[j]
                        == k;
                if i < order.len() - 1 {
                    assert(front[i].1[j] == k);
                } else {
                    assert(keys[j] == k);
                }
            }
            if is_listed(front, k) {
                let (i, j) = choose|i: int, j: int|
                    0 <= i < front.len() && 0 <= j < front[i].1.len() && #[trigger] front[i].1[j]
                        == k;
                assert(order[i].1[j] == k);
            }
            if keys.contains(k) {
                let j = choose|j: int| 0 <= j < keys.len() && keys[j] == k;
                assert(order[order.len() - 1].1[j] == k);
            }
        }
        assert(with_keys(acc, cfg, keys) =~= listed_part(cfg, order));
    }
}

/// Settings that are written and read back are the same settings, for every
/// order of sections that lists each key that is set and from which each key
/// is read back, and for settings whose values are read back as themselves.
pub proof fn lemma_written_is_read_back(
    cfg: Map<Seq<char>, CValueView>,
    d: Map<Seq<char>, (Seq<char>, CValueView)>,
    order: Seq<(Seq<char>, Seq<Seq<char>>)>,
)
    requires
        reads_back(cfg, d),
        rebuilds_keys(order),
        forall|k: Seq<char>| cfg.contains_key(k) ==> is_listed(order, k),
    ensures
        sections_added(Map::empty(), d, written_sections(cfg, order)) == cfg,
{
    lemma_listed_read_back(cfg, d, order);
    assert(listed_part(cfg, order) =~= cfg);
}

} // verus!
