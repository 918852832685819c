//! A mod's configuration record and its one-line description string.

use vstd::prelude::*;
use vstd::string::*;

verus! {

/// A mod's configuration: whether it is enabled, its file lists, and its
/// optional descriptive fields.
pub struct ModConfig {
    pub enabled: bool,
    pub includes: Option<Vec<String>>,
    pub dll: Option<Vec<String>>,
    pub name: Option<String>,
    pub description: Option<String>,
    pub version: Option<String>,
    pub date: Option<String>,
    pub author: Option<String>,
}

impl Default for ModConfig {
    fn default() -> (r: Self)
        ensures
            !r.enabled,
            r.includes is None,
            r.dll is None,
            r.name is None,
            r.description is None,
            r.version is None,
            r.date is None,
            r.author is None,
    {
        ModConfig {
            enabled: false,
            includes: None,
            dll: None,
            name: None,
            description: None,
            version: None,
            date: None,
            author: None,
        }
    }
}

/// `true` or `false`, spelled out.
pub open spec fn bool_text(b: bool) -> Seq<char> {
    if b {
        "true"@
    } else {
        "false"@
    }
}

/// An optional field's view.
pub open spec fn opt_str_view(o: Option<String>) -> Option<Seq<char>> {
    match o {
        Some(s) => Some(s@),
        None => None,
    }
}

/// An optional list's view.
pub open spec fn opt_list_view(o: Option<Vec<String>>) -> Option<Seq<Seq<char>>> {
    match o {
        Some(v) => Some(v@.map_values(|s: String| s@)),
        None => None,
    }
}

/// What one present field contributes to the description: `name: "value", `;
/// an absent field contributes nothing.
pub open spec fn field_text(name: Seq<char>, field: Option<Seq<char>>) -> Seq<char> {
    match field {
        Some(v) => name + ": \""@ + v + "\", "@,
        None => Seq::<char>::empty(),
    }
}

/// The items of a list, each followed by `, `.
pub open spec fn list_text(items: Seq<Seq<char>>) -> Seq<char>
    decreases items.len(),
{
    if items.len() == 0 {
        Seq::<char>::empty()
    } else {
        items[0] + ", "@ + list_text(items.drop_first())
    }
}

/// What one present list contributes to the description:
/// `label: [a, b, ], `; an absent list contributes nothing.
pub open spec fn list_block(label: Seq<char>, items: Option<Seq<Seq<char>>>) -> Seq<char> {
    match items {
        Some(it) => label + ": ["@ + list_text(it) + "], "@,
        None => Seq::<char>::empty(),
    }
}

/// The full description of a configuration record: the enabled flag, then
/// each present descriptive field, then each present file list.
pub open spec fn mod_config_text(c: ModConfig) -> Seq<char> {
    "ModConfig { enabled: "@ + bool_text(c.enabled) + ", "@ + field_text(
        "name"@,
        opt_str_view(c.name),
    ) + field_text("description"@, opt_str_view(c.description)) + field_text(
        "version"@,
        opt_str_view(c.version),
    ) + field_text("date"@, opt_str_view(c.date)) + field_text(
        "author"@,
        opt_str_view(c.author),
    ) + list_block("includes"@, opt_list_view(c.includes)) + list_block(
        "dll"@,
        opt_list_view(c.dll),
    ) + "}"@
}

/// Append a present field as `name: "value", `; append nothing for an
/// absent one.
pub fn check_field(out: &mut String, name: &str, infield: &Option<String>)
    ensures
        infield matches Some(v) ==> final(out)@ == old(out)@ + field_text(name@, Some(v@)),
        infield is None ==> *final(out) == *old(out),
{
    match infield {
        Some(v) => {
            out.append(name);
            out.append(": \"");
            out.append(v.as_str());
            out.append("\", ");
            proof {
                assert(out@ =~= old(out)@ + field_text(name@, Some(v@)));
            }
        },
        None => {},
    }
}

/// Appending an item extends a list's text by that item and `, `.
proof fn lemma_list_text_snoc(items: Seq<Seq<char>>, x: Seq<char>)
    ensures
        list_text(items.push(x)) == list_text(items) + x + ", "@,
    decreases items.len(),
{
    if items.len() == 0 {
        assert(items.push(x).drop_first() =~= Seq::<Seq<char>>::empty());
        assert(list_text(items.push(x).drop_first()) == Seq::<char>::empty());
        assert(items.push(x)[0] == x);
        assert(list_text(items.push(x)) == x + ", "@ + Seq::<char>::empty());
        assert(list_text(items) == Seq::<char>::empty());
        assert(x + ", "@ + Seq::<char>::empty() =~= Seq::<char>::empty() + x + ", "@);
    } else {
        assert(items.push(x).drop_first() =~= items.drop_first().push(x));
        lemma_list_text_snoc(items.drop_first(), x);
        assert(items.push(x)[0] == items[0]);
        assert(list_text(items.push(x)) == items[0] + ", "@ + (list_text(items.drop_first()) + x
            + ", "@));
        assert(items[0] + ", "@ + (list_text(items.drop_first()) + x + ", "@) =~= (items[0] + ", "@
            + list_text(items.drop_first())) + x + ", "@);
    }
}

/// Append a present list as `label: [a, b, ], `; append nothing for an
/// absent one.
fn append_list_block(out: &mut String, label: &str, items: &Option<Vec<String>>)
    ensures
        items matches Some(v) ==> final(out)@ == old(out)@ + list_block(
            label@,
            Some(v@.map_values(|s: String| s@)),
        ),
        items is None ==> *final(out) == *old(out),
{
    match items {
        Some(v) => {
            out.append(label);
            out.append(": [");
            let ghost opened = old(out)@ + label@ + ": ["@;
            assert(out@ =~= opened);
            let ghost views = v@.map_values(|s: String| s@);
            let mut i: usize = 0;
            while i < v.len()
                invariant
                    0 <= i <= v.len(),
                    views == v@.map_values(|s: String| s@),
                    views.len() == v@.len(),
                    out@ == opened + list_text(views.take(i as int)),
                decreases v.len() - i,
            {
                out.append(v[i].as_str());
                out.append(", ");
                proof {
                    assert(views[i as int] == v@[i as int]@);
                    assert(views.take(i + 1 as int) =~= views.take(i as int).push(
                        views[i as int],
                    ));
                    lemma_list_text_snoc(views.take(i as int), views[i as int]);
                    assert(out@ =~= opened + list_text(views.take(i + 1 as int)));
                }
                i = i + 1;
            }
            out.append("], ");
            proof {
                assert(views.take(v@.len() as int) =~= views);
                assert(out@ =~= old(out)@ + list_block(label@, Some(views)));
            }
        },
        None => {},
    }
}

impl ModConfig {
    /// The full description of this record.
    pub fn describe(&self) -> (r: String)
        ensures
            r@ == mod_config_text(*self),
    {
        let mut out = "ModConfig { enabled: ".to_owned();
        if self.enabled {
            out.append("true");
        } else {
            out.append("false");
        }
        out.append(", ");
        check_field(&mut out, "name", &self.name);
        check_field(&mut out, "description", &self.description);
        check_field(&mut out, "version", &self.version);
        check_field(&mut out, "date", &self.date);
        check_field(&mut out, "author", &self.author);
        append_list_block(&mut out, "includes", &self.includes);
        append_list_block(&mut out, "dll", &self.dll);
        out.append("}");
        proof {
            assert(out@ =~= mod_config_text(*self));
        }
        out
    }
}

} // verus!
