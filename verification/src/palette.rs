use vstd::prelude::*;

use crate::colour::{Colour, ColourView};

verus! {

/// What a palette is: a finite map from names to colours.
pub type PaletteView = Map<Seq<char>, ColourView>;

/// The palette after `add_colour`: a name that is taken keeps its colour, a
/// new name gets the given one.
pub open spec fn added(palette: PaletteView, name: Seq<char>, colour: ColourView) -> PaletteView {
    if palette.contains_key(name) {
        palette
    } else {
        palette.insert(name, colour)
    }
}

/// The palette after `update_colour`: a name that is taken gets the given
/// colour, a name that is not stays out.
pub open spec fn updated(palette: PaletteView, name: Seq<char>, colour: ColourView) -> PaletteView {
    if palette.contains_key(name) {
        palette.insert(name, colour)
    } else {
        palette
    }
}

/// The palette after `remove_colour`: the name is no longer taken.
pub open spec fn removed(palette: PaletteView, name: Seq<char>) -> PaletteView {
    palette.remove(name)
}

/// What `get_colour_rgb_hex` returns.
pub open spec fn rgb_hex_of(palette: PaletteView, name: Seq<char>) -> Option<u32> {
    if palette.contains_key(name) {
        Some(palette[name].rgb_hex())
    } else {
        None
    }
}

/// What `get_colour_rgba_hex` returns.
pub open spec fn rgba_hex_of(palette: PaletteView, name: Seq<char>) -> Option<u32> {
    if palette.contains_key(name) {
        Some(palette[name].rgba_hex())
    } else {
        None
    }
}

/// The names in a list of string slices, each as its characters.
pub open spec fn name_views(names: Seq<&str>) -> Seq<Seq<char>> {
    names.map_values(|name: &str| name@)
}

/// Adding under one name twice is adding once: the second colour is ignored.
/// The name is then taken, by the colour it had before, or by the first
/// colour if it had none, and the palette has grown by at most that one name.
pub proof fn lemma_add_twice_keeps_first(
    palette: PaletteView,
    name: Seq<char>,
    first: ColourView,
    second: ColourView,
)
    requires
        palette.dom().finite(),
    ensures
        added(added(palette, name, first), name, second) == added(palette, name, first),
        added(palette, name, first).contains_key(name),
        added(palette, name, first)[name] == if palette.contains_key(name) {
            palette[name]
        } else {
            first
        },
        added(palette, name, first).dom().finite(),
        added(palette, name, first).len() == if palette.contains_key(name) {
            palette.len()
        } else {
            palette.len() + 1
        },
        forall|other: Seq<char>|
            other != name ==> (added(palette, name, first).contains_key(other)
                <==> palette.contains_key(other)),
        forall|other: Seq<char>|
            other != name && palette.contains_key(other) ==> added(palette, name, first)[other]
                == palette[other],
{
}

/// Updating a name that is not taken changes nothing: the same names, the
/// same colours, the same number of them.
pub proof fn lemma_update_missing_is_noop(palette: PaletteView, name: Seq<char>, colour: ColourView)
    requires
        !palette.contains_key(name),
    ensures
        updated(palette, name, colour) == palette,
        updated(palette, name, colour).len() == palette.len(),
{
}

/// Updating a name that is taken replaces its colour and nothing else.
pub proof fn lemma_update_present_replaces(
    palette: PaletteView,
    name: Seq<char>,
    colour: ColourView,
)
    requires
        palette.dom().finite(),
        palette.contains_key(name),
    ensures
        updated(palette, name, colour).dom() == palette.dom(),
        updated(palette, name, colour).len() == palette.len(),
        updated(palette, name, colour)[name] == colour,
        forall|other: Seq<char>|
            other != name && palette.contains_key(other) ==> updated(palette, name, colour)[other]
                == palette[other],
{
    assert(palette.dom().insert(name) =~= palette.dom());
}

/// Removing a name that is not taken changes nothing: the same names, the
/// same colours, the same number of them.
pub proof fn lemma_remove_missing_is_noop(palette: PaletteView, name: Seq<char>)
    requires
        !palette.contains_key(name),
    ensures
        removed(palette, name) == palette,
        removed(palette, name).len() == palette.len(),
{
    assert(palette.remove(name) =~= palette);
}

/// Removing a name that is taken frees it and leaves every other entry as it
/// was.
pub proof fn lemma_remove_present_frees(palette: PaletteView, name: Seq<char>)
    requires
        palette.dom().finite(),
        palette.contains_key(name),
    ensures
        !removed(palette, name).contains_key(name),
        removed(palette, name).len() == palette.len() - 1,
        forall|other: Seq<char>|
            other != name && palette.contains_key(other) ==> removed(palette, name).contains_key(
                other,
            ) && removed(palette, name)[other] == palette[other],
{
}

/// After `add_colour` the name is found: under it lies the colour it had
/// before, or the added colour if it had none, and a lookup gives that colour
/// packed. A name that is still not taken is not found.
pub proof fn lemma_added_colour_is_found(
    palette: PaletteView,
    name: Seq<char>,
    colour: ColourView,
    missing: Seq<char>,
)
    ensures
        !palette.contains_key(name) ==> rgb_hex_of(added(palette, name, colour), name) == Some(
            colour.rgb_hex(),
        ),
        !palette.contains_key(name) ==> rgba_hex_of(added(palette, name, colour), name) == Some(
            colour.rgba_hex(),
        ),
        palette.contains_key(name) ==> rgb_hex_of(added(palette, name, colour), name) == Some(
            palette[name].rgb_hex(),
        ),
        palette.contains_key(name) ==> rgba_hex_of(added(palette, name, colour), name) == Some(
            palette[name].rgba_hex(),
        ),
        !added(palette, name, colour).contains_key(missing) ==> rgb_hex_of(
            added(palette, name, colour),
            missing,
        ) == None::<u32>,
        !added(palette, name, colour).contains_key(missing) ==> rgba_hex_of(
            added(palette, name, colour),
            missing,
        ) == None::<u32>,
        !added(palette, name, colour).contains_key(missing) <==> missing != name
            && !palette.contains_key(missing),
{
}

/// The map that a list of distinct names and a list of colours of the same
/// length stand for: each name with the colour at its place.
spec fn entries(names: Seq<Seq<char>>, colours: Seq<Colour>) -> PaletteView {
    Map::new(
        |name: Seq<char>| names.contains(name),
        |name: Seq<char>| colours[names.index_of(name)]@,
    )
}

/// Each name has one place, and each place has a colour.
spec fn paired(names: Seq<Seq<char>>, colours: Seq<Colour>) -> bool {
    names.len() == colours.len() && names.no_duplicates()
}

/// The characters of each of a list of strings.
spec fn string_views(names: Seq<String>) -> Seq<Seq<char>> {
    names.map_values(|name: String| name@)
}

proof fn lemma_entries_by_place(names: Seq<Seq<char>>, colours: Seq<Colour>)
    requires
        paired(names, colours),
    ensures
        forall|i: int|
            0 <= i < names.len() ==> entries(names, colours).contains_key(#[trigger] names[i])
                && entries(names, colours)[names[i]] == colours[i]@,
        entries(names, colours).dom() == names.to_set(),
        entries(names, colours).dom().finite(),
        entries(names, colours).len() == names.len(),
{
    assert forall|i: int| 0 <= i < names.len() implies entries(names, colours).contains_key(
        #[trigger] names[i],
    ) && entries(names, colours)[names[i]] == colours[i]@ by {
        assert(names.contains(names[i]));
        assert(names.index_of(names[i]) == i);
    }
    assert(entries(names, colours).dom() =~= names.to_set());
    vstd::seq_lib::seq_to_set_is_finite(names);
    names.unique_seq_to_set();
}

proof fn lemma_entries_push(
    names: Seq<Seq<char>>,
    colours: Seq<Colour>,
    name: Seq<char>,
    colour: Colour,
)
    requires
        paired(names, colours),
        !names.contains(name),
    ensures
        paired(names.push(name), colours.push(colour)),
        entries(names.push(name), colours.push(colour)) == entries(names, colours).insert(
            name,
            colour@,
        ),
{
    let grown_names = names.push(name);
    let grown_colours = colours.push(colour);
    assert(grown_names.no_duplicates()) by {
        assert forall|i: int, j: int|
            0 <= i < grown_names.len() && 0 <= j < grown_names.len() && i != j implies grown_names[i]
            != grown_names[j] by {
            if i < names.len() {
                assert(names.contains(names[i]));
            }
            if j < names.len() {
                assert(names.contains(names[j]));
            }
        }
    }
    lemma_entries_by_place(names, colours);
    lemma_entries_by_place(grown_names, grown_colours);
    let before = entries(names, colours).insert(name, colour@);
    let after = entries(grown_names, grown_colours);
    assert forall|key: Seq<char>| before.contains_key(key) <==> after.contains_key(key) by {
        if names.contains(key) {
            let i = names.index_of(key);
            assert(grown_names[i] == key);
        }
        if grown_names.contains(key) {
            let i = grown_names.index_of(key);
            if i < names.len() {
                assert(names[i] == key);
            }
        }
        assert(grown_names[names.len() as int] == name);
    }
    assert forall|key: Seq<char>| before.contains_key(key) implies before[key] == after[key] by {
        let i = grown_names.index_of(key);
        assert(grown_names[i] == key);
        if i < names.len() {
            assert(names[i] == key);
            assert(grown_colours[i] == colours[i]);
        }
    }
    assert(before =~= after);
}

proof fn lemma_entries_update(
    names: Seq<Seq<char>>,
    colours: Seq<Colour>,
    place: int,
    colour: Colour,
)
    requires
        paired(names, colours),
        0 <= place < names.len(),
    ensures
        paired(names, colours.update(place, colour)),
        entries(names, colours.update(place, colour)) == entries(names, colours).insert(
            names[place],
            colour@,
        ),
{
    let changed = colours.update(place, colour);
    lemma_entries_by_place(names, colours);
    lemma_entries_by_place(names, changed);
    let before = entries(names, colours).insert(names[place], colour@);
    let after = entries(names, changed);
    assert forall|key: Seq<char>| before.contains_key(key) implies before[key] == after[key] by {
        let i = names.index_of(key);
        assert(names[i] == key);
    }
    assert(before =~= after);
}

proof fn lemma_entries_remove(names: Seq<Seq<char>>, colours: Seq<Colour>, place: int)
    requires
        paired(names, colours),
        0 <= place < names.len(),
    ensures
        paired(names.remove(place), colours.remove(place)),
        entries(names.remove(place), colours.remove(place)) == entries(names, colours).remove(
            names[place],
        ),
{
    let fewer_names = names.remove(place);
    let fewer_colours = colours.remove(place);
    assert(fewer_names.no_duplicates()) by {
        assert forall|i: int, j: int|
            0 <= i < fewer_names.len() && 0 <= j < fewer_names.len() && i != j implies fewer_names[i]
            != fewer_names[j] by {
            let from_i = if i < place { i } else { i + 1 };
            let from_j = if j < place { j } else { j + 1 };
            assert(fewer_names[i] == names[from_i]);
            assert(fewer_names[j] == names[from_j]);
        }
    }
    lemma_entries_by_place(names, colours);
    lemma_entries_by_place(fewer_names, fewer_colours);
    let before = entries(names, colours).remove(names[place]);
    let after = entries(fewer_names, fewer_colours);
    assert forall|key: Seq<char>| before.contains_key(key) <==> after.contains_key(key) by {
        if before.contains_key(key) {
            let i = names.index_of(key);
            assert(names[i] == key);
            let to = if i < place { i } else { i - 1 };
            assert(fewer_names[to] == key);
        }
        if fewer_names.contains(key) {
            let i = fewer_names.index_of(key);
            let from = if i < place { i } else { i + 1 };
            assert(names[from] == key);
        }
    }
    assert forall|key: Seq<char>| before.contains_key(key) implies before[key] == after[key] by {
        let i = fewer_names.index_of(key);
        let from = if i < place { i } else { i + 1 };
        assert(fewer_names[i] == key);
        assert(names[from] == key);
        assert(fewer_colours[i] == colours[from]);
    }
    assert(before =~= after);
}

/// A Colour Palette consisting of { name: Colour } pairs, each name taken at
/// most once.
#[derive(Debug)]
pub struct Palette {
    names: Vec<String>,
    colours: Vec<Colour>,
}

impl View for Palette {
    type V = PaletteView;

    closed spec fn view(&self) -> PaletteView {
        entries(string_views(self.names@), self.colours@)
    }
}

impl Clone for Palette {
    fn clone(&self) -> (copy: Self)
        ensures
            copy@ == self@,
    {
        proof {
            use_type_invariant(self);
        }
        let names = self.names.clone();
        let colours = self.colours.clone();
        assert(string_views(names@) =~= string_views(self.names@));
        assert(colours@ =~= self.colours@);
        Self { names, colours }
    }
}

impl Palette {
    #[verifier::type_invariant]
    spec fn well_formed(self) -> bool {
        paired(string_views(self.names@), self.colours@)
    }

    /// The place of a name, if it is taken.
    fn position(&self, name: &str) -> (place: Option<usize>)
        ensures
            match place {
                Some(i) => i < self.names.len() && string_views(self.names@)[i as int] == name@,
                None => !string_views(self.names@).contains(name@),
            },
    {
        let wanted = name.to_owned();
        let mut i: usize = 0;
        while i < self.names.len()
            invariant
                i <= self.names.len(),
                wanted@ == name@,
                forall|j: int| 0 <= j < i ==> self.names[j]@ != name@,
            decreases self.names.len() - i,
        {
            if self.names[i] == wanted {
                return Some(i);
            }
            i += 1;
        }
        None
    }

    /// The empty palette.
    pub fn new() -> (palette: Self)
        ensures
            palette@ == Map::<Seq<char>, ColourView>::empty(),
    {
        let palette = Self { names: Vec::new(), colours: Vec::new() };
        assert(palette@ =~= Map::<Seq<char>, ColourView>::empty());
        palette
    }

    /// Adds a new Colour to the Palette
    ///
    /// If the provided name is already in use by another Colour, returns the Palette as is
    pub fn add_colour(self, name: &str, colour: Colour) -> (palette: Self)
        ensures
            palette@ == added(self@, name@, colour@),
    {
        proof {
            use_type_invariant(&self);
            lemma_entries_by_place(string_views(self.names@), self.colours@);
        }
        match self.position(name) {
            Some(_) => self,
            None => {
                let mut names = self.names;
                let mut colours = self.colours;
                proof {
                    lemma_entries_push(string_views(names@), colours@, name@, colour);
                }
                names.push(name.to_owned());
                colours.push(colour);
                assert(string_views(names@) =~= string_views(self.names@).push(name@));
                Self { names, colours }
            },
        }
    }

    /// Updates an existing Colour in the Palette to a new one
    ///
    /// If no such Colour can be found, returns the Palette as is
    pub fn update_colour(self, name: &str, colour: Colour) -> (palette: Self)
        ensures
            palette@ == updated(self@, name@, colour@),
    {
        proof {
            use_type_invariant(&self);
            lemma_entries_by_place(string_views(self.names@), self.colours@);
        }
        match self.position(name) {
            Some(place) => {
                let names = self.names;
                let mut colours = self.colours;
                proof {
                    lemma_entries_update(string_views(names@), colours@, place as int, colour);
                }
                colours.set(place, colour);
                Self { names, colours }
            },
            None => self,
        }
    }

    /// Removes an existing Colour from the Palette
    ///
    /// If no such Colour can be found, returns the Palette as is
    pub fn remove_colour(self, name: &str) -> (palette: Self)
        ensures
            palette@ == removed(self@, name@),
    {
        proof {
            use_type_invariant(&self);
            lemma_entries_by_place(string_views(self.names@), self.colours@);
        }
        match self.position(name) {
            Some(place) => {
                let mut names = self.names;
                let mut colours = self.colours;
                proof {
                    lemma_entries_remove(string_views(names@), colours@, place as int);
                }
                names.remove(place);
                colours.remove(place);
                assert(string_views(names@) =~= string_views(self.names@).remove(place as int));
                Self { names, colours }
            },
            None => {
                assert(self@.remove(name@) =~= self@);
                self
            },
        }
    }

    /// Returns the length of the Palette i.e. the total number of Colours that it contains
    pub fn len(&self) -> (count: usize)
        ensures
            count == self@.len(),
            self@.dom().finite(),
    {
        proof {
            use_type_invariant(self);
            lemma_entries_by_place(string_views(self.names@), self.colours@);
        }
        self.names.len()
    }

    /// Retrieves the rgb hex value of the Colour (0xRR_GG_BB), or None if no such Colour exists
    pub fn get_colour_rgb_hex(&self, name: &str) -> (hex: Option<u32>)
        ensures
            hex == rgb_hex_of(self@, name@),
    {
        proof {
            use_type_invariant(self);
            lemma_entries_by_place(string_views(self.names@), self.colours@);
        }
        match self.position(name) {
            Some(place) => Some(self.colours[place].as_rgb_hex()),
            None => None,
        }
    }

    /// Retrieves the rgba hex value of the Colour (0xRR_GG_BB_AA), or None of no such Colour exists
    pub fn get_colour_rgba_hex(&self, name: &str) -> (hex: Option<u32>)
        ensures
            hex == rgba_hex_of(self@, name@),
    {
        proof {
            use_type_invariant(self);
            lemma_entries_by_place(string_views(self.names@), self.colours@);
        }
        match self.position(name) {
            Some(place) => Some(self.colours[place].as_rgba_hex()),
            None => None,
        }
    }

    /// Retrieves the names of all existing Colours within the Palette, each
    /// once, in no particular order.
    pub fn get_colour_names(&self) -> (names: Vec<&str>)
        ensures
            name_views(names@).to_set() == self@.dom(),
            name_views(names@).no_duplicates(),
            names.len() == self@.len(),
    {
        proof {
            use_type_invariant(self);
            lemma_entries_by_place(string_views(self.names@), self.colours@);
        }
        let mut names: Vec<&str> = Vec::new();
        let mut i: usize = 0;
        while i < self.names.len()
            invariant
                i <= self.names.len(),
                names.len() == i,
                forall|j: int| 0 <= j < i ==> names[j]@ == self.names[j]@,
            decreases self.names.len() - i,
        {
            names.push(self.names[i].as_str());
            i += 1;
        }
        assert(name_views(names@) =~= string_views(self.names@));
        names
    }
}

} // verus!
