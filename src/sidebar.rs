use vstd::prelude::*;

verus! {

/// One of the two independent panel docks.
#[derive(Clone, Copy, PartialEq, Eq, Structural, Debug)]
pub enum Side {
    Left,
    Right,
}

/// The request to toggle one item of one side, built when a sidebar button
/// is clicked and carried to the handler that owns the matching sidebar.
#[derive(Clone, Copy, PartialEq, Eq, Structural, Debug)]
pub struct ToggleArg {
    side: Side,
    item_index: usize,
}

impl ToggleArg {
    pub closed spec fn spec_side(&self) -> Side {
        self.side
    }

    pub closed spec fn spec_item_index(&self) -> usize {
        self.item_index
    }

    pub fn new(side: Side, item_index: usize) -> (r: ToggleArg)
        ensures
            r.spec_side() == side,
            r.spec_item_index() == item_index,
    {
        ToggleArg { side, item_index }
    }

    pub fn side(&self) -> (r: Side)
        ensures
            r == self.spec_side(),
    {
        self.side
    }

    pub fn item_index(&self) -> (r: usize)
        ensures
            r == self.spec_item_index(),
    {
        self.item_index
    }
}

/// The active item after toggling `ix` on a side with `len` items whose active
/// item was `active`: the active item closes, any other valid item opens in
/// its place, and an index out of range changes nothing.
pub open spec fn next_active(active: Option<usize>, ix: usize, len: nat) -> Option<usize> {
    if ix < len {
        if active == Some(ix) {
            None
        } else {
            Some(ix)
        }
    } else {
        active
    }
}

/// Whether `active` is a possible active item of a side with `len` items:
/// none, or one index in range.
pub open spec fn valid_active(active: Option<usize>, len: nat) -> bool {
    match active {
        Some(i) => i < len,
        None => true,
    }
}

/// One icon button of a rendered sidebar: the icon it shows, whether it is
/// drawn in the theme's variant for the open item, and the request that a
/// click on it emits.
pub struct SidebarButton {
    pub icon_path: &'static str,
    pub active: bool,
    pub on_click: ToggleArg,
}

/// The indices of a side's items that are open when its active item is
/// `active`.
pub open spec fn open_items(active: Option<usize>) -> Set<usize> {
    Set::new(|i: usize| active == Some(i))
}

/// The active item after toggling each index of `ixs` in turn, starting from
/// `active`, on a side with `len` items.
pub open spec fn after_toggles(active: Option<usize>, ixs: Seq<usize>, len: nat) -> Option<
    usize,
>
    decreases ixs.len(),
{
    if ixs.len() == 0 {
        active
    } else {
        after_toggles(next_active(active, ixs[0], len), ixs.drop_first(), len)
    }
}

/// Toggling the same valid index twice in a row gives back the active item
/// that was there before, where that was none or this index. (Where another
/// item was open, the first toggle replaces it and the second closes it.)
pub proof fn lemma_toggle_twice_restores(active: Option<usize>, ix: usize, len: nat)
    requires
        ix < len,
        active is None || active == Some(ix),
    ensures
        next_active(next_active(active, ix, len), ix, len) == active,
{
}

/// Toggling a valid index `j` while another index `i` is open switches to
/// `j`: afterwards `j` is the only open item, and `i` is closed.
pub proof fn lemma_toggle_other_switches(i: usize, j: usize, len: nat)
    requires
        i < len,
        j < len,
        i != j,
    ensures
        next_active(Some(i), j, len) == Some(j),
        open_items(next_active(Some(i), j, len)) == set![j],
        !open_items(next_active(Some(i), j, len)).contains(i),
{
    assert(open_items(Some(j)) =~= set![j]);
}

/// Whatever sequence of toggles a side receives, at most one of its items is
/// open afterwards, and an open item is one in range.
pub proof fn lemma_toggles_keep_one_open(active: Option<usize>, ixs: Seq<usize>, len: nat)
    requires
        valid_active(active, len),
    ensures
        valid_active(after_toggles(active, ixs, len), len),
        open_items(after_toggles(active, ixs, len)).finite(),
        open_items(after_toggles(active, ixs, len)).len() <= 1,
    decreases ixs.len(),
{
    if ixs.len() > 0 {
        lemma_toggles_keep_one_open(next_active(active, ixs[0], len), ixs.drop_first(), len);
    } else {
        lemma_open_items_at_most_one(active);
    }
}

/// The open items of any state: none, or the one active index.
pub proof fn lemma_open_items_at_most_one(active: Option<usize>)
    ensures
        open_items(active).finite(),
        open_items(active).len() <= 1,
{
    match active {
        Some(k) => {
            assert(open_items(active) =~= set![k]);
        },
        None => {
            assert(open_items(active) =~= Set::<usize>::empty());
        },
    }
}

/// What the button at index `i` of a sidebar shows and emits.
pub open spec fn button_matches(
    b: SidebarButton,
    side: Side,
    icon_path: &'static str,
    active: Option<usize>,
    i: usize,
) -> bool {
    &&& b.icon_path == icon_path
    &&& b.active == (active == Some(i))
    &&& b.on_click.spec_side() == side
    &&& b.on_click.spec_item_index() == i
}

struct Item<V> {
    icon_path: &'static str,
    view: V,
}

/// The panel dock of one side: an ordered registry of items, each an icon and
/// a view, of which at most one is open.
///
/// Items are appended and never removed, and may be appended at any time,
/// also after the sidebar was first rendered.
pub struct Sidebar<V> {
    side: Side,
    items: Vec<Item<V>>,
    active_item_ix: Option<usize>,
}

impl<V> Sidebar<V> {
    pub closed spec fn spec_side(&self) -> Side {
        self.side
    }

    /// The views of the items, in the order in which they were added.
    pub closed spec fn views(&self) -> Seq<V> {
        self.items@.map_values(|it: Item<V>| it.view)
    }

    /// The icon paths of the items, in the order in which they were added.
    pub closed spec fn icon_paths(&self) -> Seq<&'static str> {
        self.items@.map_values(|it: Item<V>| it.icon_path)
    }

    /// The index of the open item, if any.
    pub closed spec fn active(&self) -> Option<usize> {
        self.active_item_ix
    }

    pub open spec fn len(&self) -> nat {
        self.views().len()
    }

    pub open spec fn wf(&self) -> bool {
        &&& self.icon_paths().len() == self.views().len()
        &&& valid_active(self.active(), self.len())
    }

    pub fn new(side: Side) -> (r: Sidebar<V>)
        ensures
            r.wf(),
            r.spec_side() == side,
            r.views() == Seq::<V>::empty(),
            r.icon_paths() == Seq::<&'static str>::empty(),
            r.active() is None,
    {
        let r = Sidebar { side, items: Vec::new(), active_item_ix: None };
        assert(r.views() =~= Seq::<V>::empty());
        assert(r.icon_paths() =~= Seq::<&'static str>::empty());
        r
    }

    pub fn add_item(&mut self, icon_path: &'static str, view: V)
        requires
            old(self).wf(),
        ensures
            final(self).wf(),
            final(self).spec_side() == old(self).spec_side(),
            final(self).views() == old(self).views().push(view),
            final(self).icon_paths() == old(self).icon_paths().push(icon_path),
            final(self).active() == old(self).active(),
    {
        self.items.push(Item { icon_path, view });
        assert(self.views() =~= old(self).views().push(view));
        assert(self.icon_paths() =~= old(self).icon_paths().push(icon_path));
    }

    /// Opens item `item_ix`, or closes it where it is the open one. An index
    /// out of range leaves the sidebar as it is.
    pub fn toggle_item(&mut self, item_ix: usize)
        requires
            old(self).wf(),
        ensures
            final(self).wf(),
            final(self).spec_side() == old(self).spec_side(),
            final(self).views() == old(self).views(),
            final(self).icon_paths() == old(self).icon_paths(),
            final(self).active() == next_active(old(self).active(), item_ix, old(self).len()),
    {
        if item_ix < self.items.len() {
            if self.active_item_ix == Some(item_ix) {
                self.active_item_ix = None;
            } else {
                self.active_item_ix = Some(item_ix);
            }
        }
    }

    pub fn active_item(&self) -> (r: Option<&V>)
        requires
            self.wf(),
        ensures
            r is Some <==> self.active() is Some,
            r matches Some(v) ==> *v == self.views()[self.active()->0 as int],
    {
        match self.active_item_ix {
            Some(ix) => Some(&self.items[ix].view),
            None => None,
        }
    }
}

impl<V> Sidebar<V> {
    /// The column of icon buttons, one for each item in order. Rendering reads
    /// the sidebar only: a click emits a toggle request and changes nothing
    /// here.
    pub fn render(&self) -> (r: Vec<SidebarButton>)
        requires
            self.wf(),
        ensures
            r@.len() == self.len(),
            forall|i: int|
                0 <= i < r@.len() ==> button_matches(
                    #[trigger] r@[i],
                    self.spec_side(),
                    self.icon_paths()[i],
                    self.active(),
                    i as usize,
                ),
    {
        let mut r: Vec<SidebarButton> = Vec::new();
        let n = self.items.len();
        let mut i: usize = 0;
        while i < n
            invariant
                self.wf(),
                n == self.len(),
                i <= n,
                r@.len() == i,
                forall|k: int|
                    0 <= k < i ==> button_matches(
                        #[trigger] r@[k],
                        self.spec_side(),
                        self.icon_paths()[k],
                        self.active(),
                        k as usize,
                    ),
            decreases n - i,
        {
            let active = self.active_item_ix == Some(i);
            let button = SidebarButton {
                icon_path: self.items[i].icon_path,
                active,
                on_click: ToggleArg::new(self.side, i),
            };
            r.push(button);
            i = i + 1;
        }
        r
    }
}

} // verus!
