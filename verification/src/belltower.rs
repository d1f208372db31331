//! The logical inputs and editor state of the Belltower game.
use vstd::prelude::*;
use std::collections::BTreeMap;
use vstd::std_specs::iter::IteratorSpec;
use crate::console::{decimal, decimal_string};
use crate::util::push_char;
use vstd::string::*;
use vstd::std_specs::cmp::PartialEqSpecImpl;
use crate::input::{InputState, pressed_this_frame, state_of, InputBinding, InputEffect, InputType, KeyCode, MouseButton, MINUS_ONE_BITS, ONE_BITS};

verus! {

/// The logical axes of the game's controls.
#[derive(Clone, Copy, Debug, PartialEq, Eq, Structural, PartialOrd, Ord, Hash)]
pub enum Axes {
    Horz,
    Vert,
}

/// The logical buttons of the game's controls.
#[derive(Clone, Copy, Debug, Eq, PartialOrd, Ord, Hash)]
pub enum Buttons {
    Swing,
    Crush,
    Dash,
    Focus,
}

impl PartialEq for Buttons {
    /// Two buttons are equal when they are the same button.
    fn eq(&self, other: &Self) -> (same: bool) {
        match (self, other) {
            (Buttons::Swing, Buttons::Swing) => true,
            (Buttons::Crush, Buttons::Crush) => true,
            (Buttons::Dash, Buttons::Dash) => true,
            (Buttons::Focus, Buttons::Focus) => true,
            _ => false,
        }
    }
}

impl PartialEqSpecImpl for Buttons {
    open spec fn obeys_eq_spec() -> bool {
        true
    }

    open spec fn eq_spec(&self, other: &Self) -> bool {
        *self == *other
    }
}

/// Comparing buttons with `==` is equality, as the input state needs of its button type.
pub proof fn lemma_buttons_eq_is_equality()
    ensures
        vstd::laws_eq::obeys_concrete_eq::<Buttons>(),
{
    reveal(vstd::laws_eq::obeys_concrete_eq);
}

/// The number of frames since `button` was pressed, one frame on, as the player's controller
/// counts it from the input state.
pub fn next_press_count(input: &InputState<Buttons>, button: Buttons, frames: u32) -> (next: u32)
    requires
        input.wf(),
    ensures
        next == frames_since_press_after_spec(
            pressed_this_frame(state_of(input@, button)),
            state_of(input@, button).pressed,
            frames,
        ),
{
    proof {
        lemma_buttons_eq_is_equality();
    }
    let pressed = input.get_button_pressed(button);
    let down = input.get_button_down(button);
    frames_since_press_after(pressed, down, frames)
}

/// The text being edited for one object in the level editor, with the values it started from.
pub struct ObjectEditBuffers {
    pub name: String,
    pub original_name: String,
    pub object_class: String,
    pub original_object_class: String,
    pub live: bool,
}

impl ObjectEditBuffers {
    /// Edit buffers for an object, starting from its name and class.
    pub fn new(name: String, object_class: String) -> (bufs: Self)
        ensures
            bufs.name == name,
            bufs.original_name == name,
            bufs.object_class == object_class,
            bufs.original_object_class == object_class,
            bufs.live,
    {
        Self {
            original_name: name.clone(),
            name,
            original_object_class: object_class.clone(),
            object_class,
            live: true,
        }
    }
}

/// The number of frames since a button was pressed, one frame on: zero if it was pressed in this
/// frame, one more while it is held (staying at `u32::MAX` once there), and `u32::MAX` (never)
/// once it is up.
pub open spec fn frames_since_press_after_spec(pressed: bool, down: bool, frames: u32) -> int {
    if pressed {
        0
    } else if down {
        if frames == u32::MAX {
            u32::MAX as int
        } else {
            frames + 1
        }
    } else {
        u32::MAX as int
    }
}

/// The number of frames since a button was pressed, one frame on: zero if it was pressed in this
/// frame, one more while it is held (staying at `u32::MAX` once there), and `u32::MAX` (never)
/// once it is up.
pub fn frames_since_press_after(pressed: bool, down: bool, frames: u32) -> (next: u32)
    ensures
        next == frames_since_press_after_spec(pressed, down, frames),
{
    if pressed {
        0
    } else if down {
        frames.saturating_add(1)
    } else {
        u32::MAX
    }
}

/// The game's controls: W and S move up and down, A and D left and right; space dashes, left
/// shift focuses; the left mouse button swings and the right one crushes.
pub fn default_input_binding() -> (binding: InputBinding<Axes, Buttons>)
    ensures
        binding@ == Map::<InputType, InputEffect<Axes, Buttons>>::empty().insert(
            InputType::Key(KeyCode::W),
            InputEffect::Axis(Axes::Vert, ONE_BITS),
        ).insert(InputType::Key(KeyCode::S), InputEffect::Axis(Axes::Vert, MINUS_ONE_BITS)).insert(
            InputType::Key(KeyCode::A),
            InputEffect::Axis(Axes::Horz, MINUS_ONE_BITS),
        ).insert(InputType::Key(KeyCode::D), InputEffect::Axis(Axes::Horz, ONE_BITS)).insert(
            InputType::Key(KeyCode::Space),
            InputEffect::Button(Buttons::Dash, None),
        ).insert(
            InputType::Key(KeyCode::LeftShift),
            InputEffect::Button(Buttons::Focus, None),
        ).insert(
            InputType::MouseButton(MouseButton::Left),
            InputEffect::Button(Buttons::Swing, None),
        ).insert(
            InputType::MouseButton(MouseButton::Right),
            InputEffect::Button(Buttons::Crush, None),
        ),
{
    InputBinding::new().bind_key_to_axis(KeyCode::W, Axes::Vert, ONE_BITS).bind_key_to_axis(
        KeyCode::S,
        Axes::Vert,
        MINUS_ONE_BITS,
    ).bind_key_to_axis(KeyCode::A, Axes::Horz, MINUS_ONE_BITS).bind_key_to_axis(
        KeyCode::D,
        Axes::Horz,
        ONE_BITS,
    ).bind_key_to_button(KeyCode::Space, Buttons::Dash).bind_key_to_button(
        KeyCode::LeftShift,
        Buttons::Focus,
    ).bind_mouse_to_button(MouseButton::Left, Buttons::Swing).bind_mouse_to_button(
        MouseButton::Right,
        Buttons::Crush,
    )
}


/// The edit buffers kept by a sweep at the start of a frame: those of the objects that were live
/// (shown in the last frame), each marked not live until it is shown again.
pub open spec fn swept(bufs: Map<u64, ObjectEditBuffers>) -> Map<u64, ObjectEditBuffers> {
    Map::new(
        |object: u64| bufs.contains_key(object) && bufs[object].live,
        |object: u64| ObjectEditBuffers { live: false, ..bufs[object] },
    )
}

/// Drops the edit buffers of the objects that were not shown in the last frame, and marks the
/// others not live; showing an object marks its buffers live again.
pub fn sweep_edit_buffers(bufs: &mut BTreeMap<u64, ObjectEditBuffers>)
    ensures
        final(bufs)@ == swept(old(bufs)@),
{
    let ghost start = bufs@;
    let mut objects: Vec<u64> = Vec::new();
    let keys = bufs.keys();
    let ghost listed = keys.remaining();
    let ghost all: Seq<u64> = listed.unref();
    proof {
        assert(all.to_set() == start.dom());
        assert(all.no_duplicates());
    }
    for object in it: keys
        invariant
            objects@.len() == it.index(),
            it.seq() == listed,
            forall|i: int| 0 <= i < it.index() ==> objects@[i] == *it.seq()[i],
    {
        objects.push(*object);
    }
    assert(objects@ =~= all);
    let ghost order = objects@;
    proof {
        assert forall|k: u64| start.contains_key(k) <==> order.contains(k) by {
            if start.contains_key(k) {
                assert(all.to_set().contains(k));
            }
            if order.contains(k) {
                assert(all.to_set().contains(k));
            }
        }
        assert(order.take(0) =~= Seq::<u64>::empty());
        assert(bufs@ =~= kept_after(start, order.take(0)));
    }
    let mut i: usize = 0;
    while i < objects.len()
        invariant
            objects@ == order,
            order.no_duplicates(),
            i <= order.len(),
            forall|k: u64| start.contains_key(k) <==> order.contains(k),
            bufs@ == kept_after(start, order.take(i as int)),
        decreases objects.len() - i,
    {
        let object = objects[i];
        let ghost done = order.take(i as int);
        let ghost next = order.take(i + 1);
        proof {
            assert(next =~= done.push(object));
            assert(start.contains_key(object)) by {
                assert(order.contains(object)) by {
                    assert(order[i as int] == object);
                }
            }
            assert(!done.contains(object)) by {
                if done.contains(object) {
                    let j = choose|j: int| 0 <= j < done.len() && done[j] == object;
                    assert(order[j] == order[i as int]);
                }
            }
        }
        proof {
            assert forall|k: u64| #[trigger] next.contains(k) <==> (done.contains(k) || k == object) by {
                if next.contains(k) {
                    let j = choose|j: int| 0 <= j < next.len() && next[j] == k;
                    if j < done.len() {
                        assert(done[j] == k);
                    }
                }
                if done.contains(k) {
                    let j = choose|j: int| 0 <= j < done.len() && done[j] == k;
                    assert(next[j] == k);
                }
                if k == object {
                    assert(next[i as int] == k);
                }
            }
        }
        let ghost before = bufs@;
        let removed = bufs.remove(&object);
        proof {
            assert(before.contains_key(object));
            assert(bufs@ == before.remove(object));
        }
        match removed {
            Some(buf) => {
                assert(buf == before[object]);
                if buf.live {
                    bufs.insert(object, ObjectEditBuffers { live: false, ..buf });
                }
            },
            None => {
                assert(false);
            },
        }
        assert(bufs@ =~= kept_after(start, next));
        i = i + 1;
    }
    proof {
        assert(order.take(order.len() as int) =~= order);
        assert(bufs@ =~= swept(start));
    }
}

/// The edit buffers part way through a sweep: those of the objects in `done` are swept, the others
/// are as they were.
pub open spec fn kept_after(bufs: Map<u64, ObjectEditBuffers>, done: Seq<u64>) -> Map<
    u64,
    ObjectEditBuffers,
> {
    Map::new(
        |object: u64| bufs.contains_key(object) && (!done.contains(object) || bufs[object].live),
        |object: u64| if done.contains(object) {
            ObjectEditBuffers { live: false, ..bufs[object] }
        } else {
            bufs[object]
        },
    )
}

/// Finds the edit buffers of an object, making them from its name and class if it has none, and
/// marks them live.
pub fn edit_buffers_for(
    bufs: &mut BTreeMap<u64, ObjectEditBuffers>,
    object: u64,
    name: String,
    object_class: String,
)
    ensures
        final(bufs)@ == if old(bufs)@.contains_key(object) {
            old(bufs)@.insert(object, ObjectEditBuffers { live: true, ..old(bufs)@[object] })
        } else {
            old(bufs)@.insert(
                object,
                ObjectEditBuffers {
                    name: name,
                    original_name: name,
                    object_class: object_class,
                    original_object_class: object_class,
                    live: true,
                },
            )
        },
{
    let ghost before = bufs@;
    match bufs.remove(&object) {
        Some(buf) => {
            bufs.insert(object, ObjectEditBuffers { live: true, ..buf });
            assert(bufs@ =~= before.insert(object, ObjectEditBuffers { live: true, ..before[object] }));
        },
        None => {
            bufs.insert(object, ObjectEditBuffers::new(name, object_class));
            assert(bufs@ =~= before.insert(
                object,
                ObjectEditBuffers {
                    name: name,
                    original_name: name,
                    object_class: object_class,
                    original_object_class: object_class,
                    live: true,
                },
            ));
        },
    }
}

/// What happens when the name field loses focus: with Enter, the edited name is committed (it is
/// returned, to be stored on the object) and the buffers are killed, so that the next frame
/// starts again from the object's new name; otherwise the edit is reverted to the original name.
pub fn field_focus_lost(buf: &mut ObjectEditBuffers, enter: bool) -> (commit: Option<String>)
    ensures
        enter ==> commit == Some(old(buf).name) && *final(buf) == (ObjectEditBuffers {
            live: false,
            ..*old(buf)
        }),
        !enter ==> commit is None && *final(buf) == (ObjectEditBuffers {
            name: old(buf).original_name,
            ..*old(buf)
        }),
{
    if enter {
        buf.live = false;
        Some(buf.name.clone())
    } else {
        buf.name = buf.original_name.clone();
        None
    }
}

/// What happens when the object class field loses focus: with Enter, the edited class is
/// committed when it evaluated (`evaluated`), and then the buffers are killed; without Enter,
/// the edit is reverted to the original class. Returns whether the class is committed.
pub fn class_focus_lost(buf: &mut ObjectEditBuffers, enter: bool, evaluated: bool) -> (commit:
    bool)
    ensures
        commit == (enter && evaluated),
        enter && evaluated ==> *final(buf) == (ObjectEditBuffers { live: false, ..*old(buf) }),
        enter && !evaluated ==> *final(buf) == *old(buf),
        !enter ==> *final(buf) == (ObjectEditBuffers {
            object_class: old(buf).original_object_class,
            ..*old(buf)
        }),
{
    if enter {
        if evaluated {
            buf.live = false;
        }
        evaluated
    } else {
        buf.object_class = buf.original_object_class.clone();
        false
    }
}

/// The label of an object in the editor: `name (slot)`, or the slot alone for an object with no
/// name, then `: class` when it has a class.
pub open spec fn label_of(name: Option<Seq<char>>, slot: u32, class: Option<Seq<char>>) -> Seq<
    char,
> {
    (match name {
        Some(n) => n + seq![' ', '('] + decimal(slot as nat) + seq![')'],
        None => decimal(slot as nat),
    }) + match class {
        Some(c) => seq![':', ' '] + c,
        None => Seq::empty(),
    }
}

/// The label of an object in the editor: `name (slot)`, or the slot alone for an object with no
/// name, then `: class` when it has a class.
pub fn object_label(name: Option<&str>, slot: u32, class: Option<&str>) -> (label: String)
    ensures
        label@ == label_of(
            match name {
                Some(n) => Some(n@),
                None => None,
            },
            slot,
            match class {
                Some(c) => Some(c@),
                None => None,
            },
        ),
{
    let digits = decimal_string(slot as usize);
    let mut label = String::new();
    match name {
        Some(n) => {
            label.append(n);
            push_char(&mut label, ' ');
            push_char(&mut label, '(');
            label.append(digits.as_str());
            push_char(&mut label, ')');
        },
        None => {
            label.append(digits.as_str());
        },
    }
    let ghost head = label@;
    match class {
        Some(c) => {
            push_char(&mut label, ':');
            push_char(&mut label, ' ');
            label.append(c);
            assert(label@ =~= head + (seq![':', ' '] + c@));
        },
        None => {
            assert(label@ =~= head + Seq::<char>::empty());
        },
    }
    proof {
        if let Some(n) = name {
            assert(head =~= n@ + seq![' ', '('] + decimal(slot as nat) + seq![')']);
        } else {
            assert(head =~= decimal(slot as nat));
        }
    }
    label
}

} // verus!
