//! The plan of the move to shared positions: every container is numbered
//! anew from zero, its monitors first, then its folders, then its buttons,
//! each kind in the order in which its items are given.

use vstd::prelude::*;
use crate::database::models::{Button, Folder, Monitor, opt_text};
use crate::database::positions::{ItemKind, same_opt_text};

verus! {

/// The new position of one item.
#[derive(Debug, Clone, PartialEq, Eq)]
pub struct Placement {
    pub kind: ItemKind,
    pub id: String,
    pub position: i32,
}

/// A [`Placement`] with its text as a sequence.
pub struct PlacementView {
    pub kind: ItemKind,
    pub id: Seq<char>,
    pub position: i32,
}

impl View for Placement {
    type V = PlacementView;

    open spec fn view(&self) -> PlacementView {
        PlacementView { kind: self.kind, id: self.id@, position: self.position }
    }
}

/// The views of a list of placements.
pub open spec fn placement_views(plan: Seq<Placement>) -> Seq<PlacementView> {
    Seq::new(plan.len(), |i: int| plan[i]@)
}

/// The ids of the monitors that stand in `container`, in their order.
pub open spec fn monitors_in(monitors: Seq<Monitor>, container: Option<Seq<char>>) -> Seq<
    Seq<char>,
>
    decreases monitors.len(),
{
    if monitors.len() == 0 {
        Seq::empty()
    } else {
        let before = monitors_in(monitors.drop_last(), container);
        if opt_text(monitors.last().folder_id) == container {
            before.push(monitors.last().id@)
        } else {
            before
        }
    }
}

/// The ids of the buttons that stand in `container`, in their order.
pub open spec fn buttons_in(buttons: Seq<Button>, container: Option<Seq<char>>) -> Seq<Seq<char>>
    decreases buttons.len(),
{
    if buttons.len() == 0 {
        Seq::empty()
    } else {
        let before = buttons_in(buttons.drop_last(), container);
        if opt_text(buttons.last().folder_id) == container {
            before.push(buttons.last().id@)
        } else {
            before
        }
    }
}

/// The ids of the folders, in their order.
pub open spec fn folder_ids(folders: Seq<Folder>) -> Seq<Seq<char>> {
    Seq::new(folders.len(), |i: int| folders[i].id@)
}

/// Items of one kind at the positions `from`, `from + 1`, and so on.
pub open spec fn numbered(kind: ItemKind, ids: Seq<Seq<char>>, from: int) -> Seq<PlacementView> {
    Seq::new(ids.len(), |i: int| PlacementView { kind, id: ids[i], position: (from + i) as i32 })
}

/// The numbering of one container: its monitors from zero, then the folders
/// that stand in it, then its buttons.
pub open spec fn container_plan(
    monitors: Seq<Monitor>,
    folders_here: Seq<Seq<char>>,
    buttons: Seq<Button>,
    container: Option<Seq<char>>,
) -> Seq<PlacementView> {
    let ms = monitors_in(monitors, container);
    let bs = buttons_in(buttons, container);
    numbered(ItemKind::Monitor, ms, 0) + numbered(ItemKind::Folder, folders_here, ms.len() as int)
        + numbered(ItemKind::Button, bs, (ms.len() + folders_here.len()) as int)
}

/// The numberings of the folders' own contents, folder after folder.
pub open spec fn folders_plan(
    monitors: Seq<Monitor>,
    buttons: Seq<Button>,
    folders: Seq<Folder>,
) -> Seq<PlacementView>
    decreases folders.len(),
{
    if folders.len() == 0 {
        Seq::empty()
    } else {
        folders_plan(monitors, buttons, folders.drop_last()) + container_plan(
            monitors,
            Seq::empty(),
            buttons,
            Some(folders.last().id@),
        )
    }
}

/// The whole plan: the root, which holds all folders, and then each folder.
/// An item that names a folder that is not among `folders` keeps its
/// position.
pub open spec fn migration_plan(
    monitors: Seq<Monitor>,
    folders: Seq<Folder>,
    buttons: Seq<Button>,
) -> Seq<PlacementView> {
    container_plan(monitors, folder_ids(folders), buttons, None) + folders_plan(
        monitors,
        buttons,
        folders,
    )
}

/// A container holds no more monitors than there are.
pub proof fn lemma_monitors_in_len(monitors: Seq<Monitor>, container: Option<Seq<char>>)
    ensures
        monitors_in(monitors, container).len() <= monitors.len(),
    decreases monitors.len(),
{
    if monitors.len() > 0 {
        lemma_monitors_in_len(monitors.drop_last(), container);
    }
}

/// A container holds no more buttons than there are.
pub proof fn lemma_buttons_in_len(buttons: Seq<Button>, container: Option<Seq<char>>)
    ensures
        buttons_in(buttons, container).len() <= buttons.len(),
    decreases buttons.len(),
{
    if buttons.len() > 0 {
        lemma_buttons_in_len(buttons.drop_last(), container);
    }
}

/// The plan of a container gives its items the positions 0, 1, 2 and so on,
/// without a gap and without a repeat: the item number `k` of the plan stands
/// at position `k`.
pub proof fn law_container_counts_from_zero(
    monitors: Seq<Monitor>,
    folders_here: Seq<Seq<char>>,
    buttons: Seq<Button>,
    container: Option<Seq<char>>,
    k: int,
)
    requires
        monitors.len() + folders_here.len() + buttons.len() <= i32::MAX,
        0 <= k < container_plan(monitors, folders_here, buttons, container).len(),
    ensures
        container_plan(monitors, folders_here, buttons, container)[k].position == k,
        container_plan(monitors, folders_here, buttons, container).len() == monitors_in(
            monitors,
            container,
        ).len() + folders_here.len() + buttons_in(buttons, container).len(),
{
    lemma_monitors_in_len(monitors, container);
    lemma_buttons_in_len(buttons, container);
}

fn place_monitors(
    plan: &mut Vec<Placement>,
    monitors: &Vec<Monitor>,
    container: &Option<String>,
) -> (count: usize)
    requires
        monitors.len() <= i32::MAX,
    ensures
        placement_views(final(plan)@) == placement_views(old(plan)@) + numbered(
            ItemKind::Monitor,
            monitors_in(monitors@, opt_text(*container)),
            0,
        ),
        count == monitors_in(monitors@, opt_text(*container)).len(),
{
    let mut count: usize = 0;
    let mut i: usize = 0;
    assert(monitors@.take(0).len() == 0);
    assert(placement_views(plan@) =~= placement_views(old(plan)@) + numbered(
        ItemKind::Monitor,
        monitors_in(monitors@.take(0), opt_text(*container)),
        0,
    ));
    while i < monitors.len()
        invariant
            i <= monitors.len(),
            monitors.len() <= i32::MAX,
            count == monitors_in(monitors@.take(i as int), opt_text(*container)).len(),
            count <= i,
            placement_views(plan@) == placement_views(old(plan)@) + numbered(
                ItemKind::Monitor,
                monitors_in(monitors@.take(i as int), opt_text(*container)),
                0,
            ),
        decreases monitors.len() - i,
    {
        let ghost longer = monitors@.take(i + 1);
        let ghost before = placement_views(plan@);
        assert(longer.drop_last() =~= monitors@.take(i as int));
        assert(longer.last() == monitors@[i as int]);
        if same_opt_text(&monitors[i].folder_id, container) {
            plan.push(
                Placement {
                    kind: ItemKind::Monitor,
                    id: monitors[i].id.clone(),
                    position: count as i32,
                },
            );
            proof {
                let ids = monitors_in(monitors@.take(i as int), opt_text(*container));
                let placed = PlacementView {
                    kind: ItemKind::Monitor,
                    id: monitors@[i as int].id@,
                    position: count as i32,
                };
                assert(placement_views(plan@) =~= before.push(placed));
                assert(numbered(ItemKind::Monitor, ids.push(monitors@[i as int].id@), 0)
                    =~= numbered(ItemKind::Monitor, ids, 0).push(placed));
                assert(placement_views(plan@) =~= placement_views(old(plan)@) + numbered(
                    ItemKind::Monitor,
                    monitors_in(longer, opt_text(*container)),
                    0,
                ));
            }
            count += 1;
        }
        i += 1;
    }
    assert(monitors@.take(monitors.len() as int) =~= monitors@);
    count
}

fn place_folders(plan: &mut Vec<Placement>, folders: &Vec<Folder>, from: usize)
    requires
        from + folders.len() <= i32::MAX,
    ensures
        placement_views(final(plan)@) == placement_views(old(plan)@) + numbered(
            ItemKind::Folder,
            folder_ids(folders@),
            from as int,
        ),
{
    let mut i: usize = 0;
    assert(placement_views(plan@) =~= placement_views(old(plan)@) + numbered(
        ItemKind::Folder,
        folder_ids(folders@).take(0),
        from as int,
    ));
    while i < folders.len()
        invariant
            i <= folders.len(),
            from + folders.len() <= i32::MAX,
            placement_views(plan@) == placement_views(old(plan)@) + numbered(
                ItemKind::Folder,
                folder_ids(folders@).take(i as int),
                from as int,
            ),
        decreases folders.len() - i,
    {
        let ghost before = placement_views(plan@);
        plan.push(
            Placement {
                kind: ItemKind::Folder,
                id: folders[i].id.clone(),
                position: (from + i) as i32,
            },
        );
        proof {
            let ids = folder_ids(folders@).take(i as int);
            let placed = PlacementView {
                kind: ItemKind::Folder,
                id: folders@[i as int].id@,
                position: (from + i) as i32,
            };
            assert(placement_views(plan@) =~= before.push(placed));
            assert(folder_ids(folders@).take(i + 1) =~= ids.push(folders@[i as int].id@));
            assert(numbered(ItemKind::Folder, ids.push(folders@[i as int].id@), from as int)
                =~= numbered(ItemKind::Folder, ids, from as int).push(placed));
        }
        i += 1;
    }
    assert(folder_ids(folders@).take(folders.len() as int) =~= folder_ids(folders@));
}

fn place_buttons(
    plan: &mut Vec<Placement>,
    buttons: &Vec<Button>,
    container: &Option<String>,
    from: usize,
)
    requires
        from + buttons.len() <= i32::MAX,
    ensures
        placement_views(final(plan)@) == placement_views(old(plan)@) + numbered(
            ItemKind::Button,
            buttons_in(buttons@, opt_text(*container)),
            from as int,
        ),
{
    let mut count: usize = 0;
    let mut i: usize = 0;
    assert(buttons@.take(0).len() == 0);
    assert(placement_views(plan@) =~= placement_views(old(plan)@) + numbered(
        ItemKind::Button,
        buttons_in(buttons@.take(0), opt_text(*container)),
        from as int,
    ));
    while i < buttons.len()
        invariant
            i <= buttons.len(),
            from + buttons.len() <= i32::MAX,
            count == buttons_in(buttons@.take(i as int), opt_text(*container)).len(),
            count <= i,
            placement_views(plan@) == placement_views(old(plan)@) + numbered(
                ItemKind::Button,
                buttons_in(buttons@.take(i as int), opt_text(*container)),
                from as int,
            ),
        decreases buttons.len() - i,
    {
        let ghost longer = buttons@.take(i + 1);
        let ghost before = placement_views(plan@);
        assert(longer.drop_last() =~= buttons@.take(i as int));
        assert(longer.last() == buttons@[i as int]);
        if same_opt_text(&buttons[i].folder_id, container) {
            plan.push(
                Placement {
                    kind: ItemKind::Button,
                    id: buttons[i].id.clone(),
                    position: (from + count) as i32,
                },
            );
            proof {
                let ids = buttons_in(buttons@.take(i as int), opt_text(*container));
                let placed = PlacementView {
                    kind: ItemKind::Button,
                    id: buttons@[i as int].id@,
                    position: (from + count) as i32,
                };
                assert(placement_views(plan@) =~= before.push(placed));
                assert(numbered(ItemKind::Button, ids.push(buttons@[i as int].id@), from as int)
                    =~= numbered(ItemKind::Button, ids, from as int).push(placed));
                assert(placement_views(plan@) =~= placement_views(old(plan)@) + numbered(
                    ItemKind::Button,
                    buttons_in(longer, opt_text(*container)),
                    from as int,
                ));
            }
            count += 1;
        }
        i += 1;
    }
    assert(buttons@.take(buttons.len() as int) =~= buttons@);
}

/// The new positions of all items, in the order in which they are to be
/// written: the root first, then folder after folder.
pub fn plan_migration(monitors: &Vec<Monitor>, folders: &Vec<Folder>, buttons: &Vec<Button>) -> (plan:
    Vec<Placement>)
    requires
        monitors.len() + folders.len() + buttons.len() <= i32::MAX,
    ensures
        placement_views(plan@) == migration_plan(monitors@, folders@, buttons@),
{
    let mut plan: Vec<Placement> = Vec::new();
    let root: Option<String> = None;
    let no_folders: Vec<Folder> = Vec::new();

    let root_monitors = place_monitors(&mut plan, monitors, &root);
    proof {
        lemma_monitors_in_len(monitors@, None);
    }
    place_folders(&mut plan, folders, root_monitors);
    place_buttons(&mut plan, buttons, &root, root_monitors + folders.len());
    assert(placement_views(plan@) =~= container_plan(
        monitors@,
        folder_ids(folders@),
        buttons@,
        None,
    ));

    let ghost root_plan = placement_views(plan@);
    let mut f: usize = 0;
    assert(folders@.take(0).len() == 0);
    assert(placement_views(plan@) =~= root_plan + folders_plan(
        monitors@,
        buttons@,
        folders@.take(0),
    ));
    while f < folders.len()
        invariant
            f <= folders.len(),
            monitors.len() + folders.len() + buttons.len() <= i32::MAX,
            no_folders@.len() == 0,
            placement_views(plan@) == root_plan + folders_plan(
                monitors@,
                buttons@,
                folders@.take(f as int),
            ),
        decreases folders.len() - f,
    {
        let ghost longer = folders@.take(f + 1);
        let ghost before = placement_views(plan@);
        assert(longer.drop_last() =~= folders@.take(f as int));
        assert(longer.last() == folders@[f as int]);
        let container = Some(folders[f].id.clone());
        let inside = place_monitors(&mut plan, monitors, &container);
        proof {
            lemma_monitors_in_len(monitors@, opt_text(container));
        }
        place_folders(&mut plan, &no_folders, inside);
        place_buttons(&mut plan, buttons, &container, inside);
        assert(folder_ids(no_folders@) =~= Seq::<Seq<char>>::empty());
        assert(placement_views(plan@) =~= before + container_plan(
            monitors@,
            Seq::empty(),
            buttons@,
            Some(folders@[f as int].id@),
        ));
        f += 1;
    }
    assert(folders@.take(folders.len() as int) =~= folders@);
    plan
}

} // verus!
