//! Built-in cinema presets, in their listing order.

use vstd::prelude::*;

use crate::text::str_eq;

verus! {

/// A well-known cinema that can be added by its short name.
#[derive(Debug, Clone, Copy)]
pub struct Preset {
    pub id: &'static str,
    pub name: &'static str,
    pub city: &'static str,
    pub note: &'static str,
}

/// A preset by the text of its fields.
pub struct PresetV {
    pub id: Seq<char>,
    pub name: Seq<char>,
    pub city: Seq<char>,
    pub note: Seq<char>,
}

impl View for Preset {
    type V = PresetV;

    open spec fn view(&self) -> PresetV {
        PresetV { id: self.id@, name: self.name@, city: self.city@, note: self.note@ }
    }
}

/// The presets as (short name, preset), in order.
pub open spec fn preset_table() -> Seq<(Seq<char>, PresetV)> {
    seq![
        ("前滩太古里"@, PresetV {
            id: "37534"@,
            name: "MOViE MOViE 影城（前滩太古里店）"@,
            city: "上海"@,
            note: "艺术影院，挂幕类活动常有"@,
        }),
        ("上海大光明"@, PresetV {
            id: "2127"@,
            name: "大光明影院（南京西路）"@,
            city: "上海"@,
            note: "首映礼常驻地"@,
        }),
        ("上海影城"@, PresetV {
            id: "2120"@,
            name: "上海影城（新华路）"@,
            city: "上海"@,
            note: "上海电影节主场地"@,
        }),
        ("北京万达CBD"@, PresetV {
            id: "7579"@,
            name: "万达影城（北京CBD店）"@,
            city: "北京"@,
            note: "热门商圈"@,
        }),
        ("深圳万象天地"@, PresetV {
            id: "11823"@,
            name: "万象影城（深圳万象天地店）"@,
            city: "深圳"@,
            note: "热门商圈"@,
        }),
    ]
}

pub open spec fn preset_entries_view(v: Seq<(&'static str, Preset)>) -> Seq<(Seq<char>, PresetV)> {
    v.map_values(|e: (&'static str, Preset)| (e.0@, e.1@))
}

/// All presets with their short names, in order.
pub fn list_presets() -> (r: Vec<(&'static str, Preset)>)
    ensures
        preset_entries_view(r@) == preset_table(),
{
    let mut v: Vec<(&'static str, Preset)> = Vec::new();
    v.push(
        (
            "前滩太古里",
            Preset {
                id: "37534",
                name: "MOViE MOViE 影城（前滩太古里店）",
                city: "上海",
                note: "艺术影院，挂幕类活动常有",
            },
        ),
    );
    v.push(
        (
            "上海大光明",
            Preset {
                id: "2127",
                name: "大光明影院（南京西路）",
                city: "上海",
                note: "首映礼常驻地",
            },
        ),
    );
    v.push(
        (
            "上海影城",
            Preset { id: "2120", name: "上海影城（新华路）", city: "上海", note: "上海电影节主场地" },
        ),
    );
    v.push(
        (
            "北京万达CBD",
            Preset { id: "7579", name: "万达影城（北京CBD店）", city: "北京", note: "热门商圈" },
        ),
    );
    v.push(
        (
            "深圳万象天地",
            Preset {
                id: "11823",
                name: "万象影城（深圳万象天地店）",
                city: "深圳",
                note: "热门商圈",
            },
        ),
    );
    assert(preset_entries_view(v@) =~= preset_table());
    v
}

/// The first preset whose short name is `name`.
pub open spec fn find_preset(t: Seq<(Seq<char>, PresetV)>, name: Seq<char>) -> Option<PresetV>
    decreases t.len(),
{
    if t.len() == 0 {
        None
    } else if t[0].0 == name {
        Some(t[0].1)
    } else {
        find_preset(t.drop_first(), name)
    }
}

/// The preset with the short name `name`.
pub fn get_preset(name: &str) -> (r: Option<Preset>)
    ensures
        match r {
            Some(p) => find_preset(preset_table(), name@) == Some(p@),
            None => find_preset(preset_table(), name@) is None,
        },
{
    let all = list_presets();
    let ghost t = preset_table();
    let mut i: usize = 0;
    assert(t.skip(0) =~= t);
    while i < all.len()
        invariant
            i <= all@.len(),
            preset_entries_view(all@) == t,
            t == preset_table(),
            find_preset(t, name@) == find_preset(t.skip(i as int), name@),
        decreases all.len() - i,
    {
        assert(t.skip(i as int)[0] == (all@[i as int].0@, all@[i as int].1@));
        if str_eq(all[i].0, name) {
            return Some(all[i].1);
        }
        assert(t.skip(i as int).drop_first() =~= t.skip(i + 1));
        i = i + 1;
    }
    assert(t.skip(i as int) =~= Seq::<(Seq<char>, PresetV)>::empty());
    None
}

} // verus!
