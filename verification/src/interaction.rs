//! What keys, buttons, motion and wheel mean to the editor.
//!
//! Events reach these methods one at a time, in the order of their receipt,
//! from a sealed snapshot. Each method updates the interaction state and names
//! the work that the caller performs, in order; where that work can change what
//! the rest of the event depends on, the rest is a follow-up that looks again.
use vstd::prelude::*;

use crate::clock::{Duration, Instant};
use crate::input::{ElementState, InputEvent, InputModifiers, KeyCode, MouseButton};
use crate::paint::{BiomePaintTool, EditorTool, PaintGates, StrokeState};

verus! {

/// A cursor position by the bit patterns of its coordinates.
#[derive(Debug, Clone, Copy, PartialEq, Eq, Structural)]
pub struct CursorPosition {
    pub x_bits: u64,
    pub y_bits: u64,
}

/// Button edges and editing keys that the interface has not consumed.
#[derive(Debug, Clone, Copy, PartialEq, Eq, Structural)]
pub struct GuiEdges {
    pub primary_pressed: bool,
    pub primary_released: bool,
    pub secondary_pressed: bool,
    pub secondary_released: bool,
    pub backspace: bool,
    pub escape: bool,
    pub enter: bool,
}

/// Where typed keys go.
#[derive(Debug, Clone, Copy, PartialEq, Eq, Structural)]
pub struct KeyboardFocus {
    pub in_editor: bool,
    pub wants_text_input: bool,
    pub quick_add_open: bool,
    pub command_palette_open: bool,
    pub renaming: bool,
    pub tool_search_focused: bool,
    pub tool_search_empty: bool,
    pub context_menu_open: bool,
    pub project_action_pending: bool,
    pub template_picker_open: bool,
    pub mask_view: bool,
    pub biome_tool: BiomePaintTool,
    pub polygon_vertices: usize,
    pub has_active_biome: bool,
}

impl KeyboardFocus {
    /// Some text field takes characters.
    pub open spec fn takes_chars(self) -> bool {
        self.wants_text_input || self.quick_add_open || self.command_palette_open || self.renaming
            || self.tool_search_focused
    }

    pub fn wants_chars(&self) -> (r: bool)
        ensures
            r == self.takes_chars(),
    {
        self.wants_text_input || self.quick_add_open || self.command_palette_open || self.renaming
            || self.tool_search_focused
    }

    /// Backspace edits a text.
    pub open spec fn takes_backspace(self) -> bool {
        self.wants_text_input || self.quick_add_open || self.command_palette_open
            || !self.tool_search_empty || self.renaming
    }

    /// Escape closes or cancels something.
    pub open spec fn takes_escape(self) -> bool {
        self.wants_text_input || self.quick_add_open || self.command_palette_open
            || self.context_menu_open || self.renaming || self.project_action_pending
            || self.template_picker_open || self.mask_view
    }

    /// Enter confirms a text.
    pub open spec fn takes_enter(self) -> bool {
        self.wants_text_input || self.renaming
    }

    /// Enter closes the biome polygon.
    pub open spec fn closes_polygon(self) -> bool {
        self.biome_tool == BiomePaintTool::PolygonFill && self.polygon_vertices >= 3
            && self.has_active_biome
    }
}

/// What pointer events depend on.
#[derive(Debug, Clone, Copy, PartialEq, Eq, Structural)]
pub struct PointerContext {
    pub gates: PaintGates,
    /// The move tool is active in a workspace whose gizmo owns the click.
    pub gizmo_owns_click: bool,
    /// The right button travelled too little to count as a drag.
    pub right_travel_is_click: bool,
    pub dragging_shape_point: bool,
    pub dragging_layer_point: bool,
    pub has_renderer: bool,
    /// The cursor is known and outside the viewport.
    pub over_chrome: bool,
}

/// How a held button moves the camera.
#[derive(Debug, Clone, Copy, PartialEq, Eq, Structural)]
pub enum CameraMotion {
    Orbit,
    Look,
    /// Pan without counting as a right drag.
    Pan,
    /// Pan and lengthen the right drag.
    PanRight,
}

/// What the caller has to do, in order.
#[derive(Debug, Clone, Copy, PartialEq, Eq, Structural)]
pub enum InputEffect {
    SetCameraKey { code: KeyCode, pressed: bool },
    ClearCameraKeys,
    SaveCameraBookmark(usize),
    RecallCameraBookmark(usize),
    /// Run the command that the chord is bound to, if it is bound.
    DispatchShortcut { code: KeyCode, modifiers: InputModifiers, wants_chars: bool },
    CloseContextMenu,
    OpenContextMenu,
    CommitBiomePolygon,
    /// Append the character of the key, if it has one.
    PushCharacter { code: KeyCode, shift: bool },
    ResetRightTravel,
    PaintAtCursor,
    PlacePointAtCursor,
    PickShapeAtCursor,
    UpdateShapePointDrag,
    UpdateLayerPointDrag,
    EndShapePointDrag,
    EndLayerPointDrag,
    EndBiomePaintStroke,
    CommitMaskPaintStroke,
    MoveCamera { motion: CameraMotion, from: CursorPosition, to: CursorPosition },
    ScrollGui { delta_bits: u32 },
    StepBrushRadius { delta_bits: u32 },
    ZoomCamera { delta_bits: u32 },
    /// Put the finished shape stroke into the history.
    AnnotateShapeStroke,
    MarkShapeDependentsOutdated,
    CommitShapeAtFull,
    /// Let optional refinement wait until the grace period has passed.
    DelayRefinement,
}

/// The rest of an event, for after the effects.
#[derive(Debug, Clone, Copy, PartialEq, Eq, Structural)]
pub enum FollowUp {
    Nothing,
    /// Call `finish_key` with a fresh look at the focus.
    FinishKey { code: KeyCode, wants_chars: bool },
    /// Call `finish_stroke`.
    FinishStroke,
}

/// What came of an event.
#[derive(Debug)]
pub struct AppliedInput {
    pub redraw: bool,
    pub effects: Vec<InputEffect>,
    pub follow_up: FollowUp,
}

impl KeyCode {
    /// The camera bookmark of a digit.
    pub open spec fn bookmark(self) -> Option<usize> {
        match self {
            KeyCode::Digit1 => Some(0),
            KeyCode::Digit2 => Some(1),
            KeyCode::Digit3 => Some(2),
            KeyCode::Digit4 => Some(3),
            KeyCode::Digit5 => Some(4),
            KeyCode::Digit6 => Some(5),
            KeyCode::Digit7 => Some(6),
            KeyCode::Digit8 => Some(7),
            KeyCode::Digit9 => Some(8),
            _ => None,
        }
    }

    pub fn bookmark_index(self) -> (r: Option<usize>)
        ensures
            r == self.bookmark(),
    {
        match self {
            KeyCode::Digit1 => Some(0),
            KeyCode::Digit2 => Some(1),
            KeyCode::Digit3 => Some(2),
            KeyCode::Digit4 => Some(3),
            KeyCode::Digit5 => Some(4),
            KeyCode::Digit6 => Some(5),
            KeyCode::Digit7 => Some(6),
            KeyCode::Digit8 => Some(7),
            KeyCode::Digit9 => Some(8),
            _ => None,
        }
    }
}

/// Modifiers, buttons and cursor as the events so far left them.
#[derive(Debug, Clone, Copy, PartialEq, Eq, Structural)]
pub struct Interaction {
    pub modifiers: InputModifiers,
    /// Shift as the interface shows it.
    pub shift_context: bool,
    pub mouse_pressed: Option<MouseButton>,
    pub mouse_press_cursor: Option<CursorPosition>,
    pub last_cursor: Option<CursorPosition>,
    pub gui: GuiEdges,
}

impl Interaction {
    /// Nothing is pressed and the cursor is unknown.
    pub open spec fn at_rest() -> Interaction {
        Interaction {
            modifiers: InputModifiers {
                shift: false,
                alt: false,
                ctrl: false,
                super_key: false,
            },
            shift_context: false,
            mouse_pressed: None,
            mouse_press_cursor: None,
            last_cursor: None,
            gui: GuiEdges {
                primary_pressed: false,
                primary_released: false,
                secondary_pressed: false,
                secondary_released: false,
                backspace: false,
                escape: false,
                enter: false,
            },
        }
    }

    pub fn new() -> (r: Self)
        ensures
            r == Self::at_rest(),
    {
        Interaction {
            modifiers: InputModifiers::default(),
            shift_context: false,
            mouse_pressed: None,
            mouse_press_cursor: None,
            last_cursor: None,
            gui: GuiEdges {
                primary_pressed: false,
                primary_released: false,
                secondary_pressed: false,
                secondary_released: false,
                backspace: false,
                escape: false,
                enter: false,
            },
        }
    }

    /// The paint gates under the modifiers that are held now.
    pub open spec fn gates(self, context: PointerContext) -> PaintGates {
        PaintGates { modifiers_alt: self.modifiers.alt, ..context.gates }
    }

    /// What a bookmark digit does: Control saves, Alt recalls, and Alt wins.
    pub open spec fn bookmark_effects(self, code: KeyCode, in_editor: bool) -> Seq<InputEffect> {
        match code.bookmark() {
            Some(index) if in_editor => if self.modifiers.ctrl && !self.modifiers.alt {
                seq![InputEffect::SaveCameraBookmark(index)]
            } else if self.modifiers.alt {
                seq![InputEffect::RecallCameraBookmark(index)]
            } else {
                seq![]
            },
            _ => seq![],
        }
    }

    /// The effects of pressing a key, up to its shortcut.
    pub open spec fn press_effects(self, code: KeyCode, focus: KeyboardFocus) -> Seq<InputEffect> {
        seq![InputEffect::SetCameraKey { code, pressed: true }] + self.bookmark_effects(
            code,
            focus.in_editor,
        ) + seq![
            InputEffect::DispatchShortcut {
                code,
                modifiers: self.modifiers,
                wants_chars: focus.takes_chars(),
            },
        ]
    }

    /// A key went down or up. Releases only move the camera keys; presses also
    /// run bookmarks and shortcuts, and leave the editing keys to the follow-up.
    pub fn apply_keyboard_input(
        &self,
        code: Option<KeyCode>,
        state: ElementState,
        focus: &KeyboardFocus,
    ) -> (r: AppliedInput)
        ensures
            match (code, state) {
                (None, _) => {
                    &&& !r.redraw
                    &&& r.effects@ == Seq::<InputEffect>::empty()
                    &&& r.follow_up == FollowUp::Nothing
                },
                (Some(code), ElementState::Released) => {
                    &&& !r.redraw
                    &&& r.effects@ == seq![InputEffect::SetCameraKey { code, pressed: false }]
                    &&& r.follow_up == FollowUp::Nothing
                },
                (Some(code), ElementState::Pressed) => {
                    &&& r.redraw
                    &&& r.effects@ == self.press_effects(code, *focus)
                    &&& r.follow_up == (FollowUp::FinishKey {
                        code,
                        wants_chars: focus.takes_chars(),
                    })
                },
            },
    {
        let mut effects: Vec<InputEffect> = Vec::new();
        let code = match code {
            Some(code) => code,
            None => {
                return AppliedInput { redraw: false, effects, follow_up: FollowUp::Nothing };
            },
        };
        let pressed = state == ElementState::Pressed;
        effects.push(InputEffect::SetCameraKey { code, pressed });
        if !pressed {
            return AppliedInput { redraw: false, effects, follow_up: FollowUp::Nothing };
        }
        let wants_chars = focus.wants_chars();
        if let Some(index) = code.bookmark_index() {
            if focus.in_editor {
                if self.modifiers.ctrl && !self.modifiers.alt {
                    effects.push(InputEffect::SaveCameraBookmark(index));
                } else if self.modifiers.alt {
                    effects.push(InputEffect::RecallCameraBookmark(index));
                }
            }
        }
        effects.push(
            InputEffect::DispatchShortcut { code, modifiers: self.modifiers, wants_chars },
        );
        assert(effects@ =~= self.press_effects(code, *focus));
        AppliedInput { redraw: true, effects, follow_up: FollowUp::FinishKey { code, wants_chars } }
    }

    /// The editing flags after `code` was handled.
    pub open spec fn edges_after_key(self, code: KeyCode, focus: KeyboardFocus) -> GuiEdges {
        match code {
            KeyCode::Backspace if focus.takes_backspace() => GuiEdges {
                backspace: true,
                ..self.gui
            },
            KeyCode::Escape if focus.takes_escape() && !focus.context_menu_open => GuiEdges {
                escape: true,
                ..self.gui
            },
            KeyCode::Enter | KeyCode::NumpadEnter => GuiEdges {
                enter: self.gui.enter || focus.takes_enter(),
                ..self.gui
            },
            _ => self.gui,
        }
    }

    /// The effects of the editing keys.
    pub open spec fn finish_effects(
        self,
        code: KeyCode,
        wants_chars: bool,
        focus: KeyboardFocus,
    ) -> Seq<InputEffect> {
        let handled = match code {
            KeyCode::Escape if focus.context_menu_open => seq![InputEffect::CloseContextMenu],
            KeyCode::Enter | KeyCode::NumpadEnter => if !focus.takes_enter()
                && focus.closes_polygon() {
                seq![InputEffect::CommitBiomePolygon]
            } else {
                seq![]
            },
            _ => seq![],
        };
        let typed = if !self.modifiers.ctrl && wants_chars {
            seq![InputEffect::PushCharacter { code, shift: self.modifiers.shift }]
        } else {
            seq![]
        };
        handled + typed
    }

    /// The editing keys of a press, once its shortcut has run. An open context
    /// menu swallows Escape.
    pub fn finish_key(&mut self, code: KeyCode, wants_chars: bool, focus: &KeyboardFocus) -> (r:
        Vec<InputEffect>)
        ensures
            r@ == old(self).finish_effects(code, wants_chars, *focus),
            *final(self) == (Interaction {
                gui: old(self).edges_after_key(code, *focus),
                ..*old(self)
            }),
    {
        let mut effects: Vec<InputEffect> = Vec::new();
        let mut gui = self.gui;
        match code {
            KeyCode::Backspace => {
                if focus.wants_text_input || focus.quick_add_open || focus.command_palette_open
                    || !focus.tool_search_empty || focus.renaming {
                    gui.backspace = true;
                }
            },
            KeyCode::Escape => {
                if focus.context_menu_open {
                    effects.push(InputEffect::CloseContextMenu);
                } else if focus.wants_text_input || focus.quick_add_open
                    || focus.command_palette_open || focus.renaming || focus.project_action_pending
                    || focus.template_picker_open || focus.mask_view {
                    gui.escape = true;
                }
            },
            KeyCode::Enter | KeyCode::NumpadEnter => {
                if focus.wants_text_input || focus.renaming {
                    gui.enter = true;
                } else if focus.biome_tool == BiomePaintTool::PolygonFill
                    && focus.polygon_vertices >= 3 && focus.has_active_biome {
                    effects.push(InputEffect::CommitBiomePolygon);
                }
            },
            _ => {},
        }
        if !self.modifiers.ctrl && wants_chars {
            effects.push(InputEffect::PushCharacter { code, shift: self.modifiers.shift });
        }
        assert(effects@ =~= self.finish_effects(code, wants_chars, *focus));
        self.gui = gui;
        effects
    }

    /// The button edges after `button` changed.
    pub open spec fn edges_after_button(self, state: ElementState, button: MouseButton) -> GuiEdges {
        match (button, state) {
            (MouseButton::Left, ElementState::Pressed) => GuiEdges {
                primary_pressed: true,
                ..self.gui
            },
            (MouseButton::Left, ElementState::Released) => GuiEdges {
                primary_released: true,
                ..self.gui
            },
            (MouseButton::Right, ElementState::Pressed) => GuiEdges {
                secondary_pressed: true,
                ..self.gui
            },
            (MouseButton::Right, ElementState::Released) => GuiEdges {
                secondary_released: true,
                ..self.gui
            },
            _ => self.gui,
        }
    }

    /// A press of the primary button belongs to the viewport.
    pub open spec fn viewport_click(self, button: MouseButton, context: PointerContext) -> bool {
        button == MouseButton::Left && context.gates.cursor_in_viewport && !self.modifiers.alt
            && !context.gates.gui_wants_pointer
    }

    /// The effects of a press: paint, else place a point, else pick a shape.
    pub open spec fn button_press_effects(
        self,
        button: MouseButton,
        context: PointerContext,
    ) -> Seq<InputEffect> {
        let reset = if button == MouseButton::Right {
            seq![InputEffect::ResetRightTravel]
        } else {
            seq![]
        };
        let click = if !self.viewport_click(button, context) {
            seq![]
        } else if self.gates(context).paints() {
            seq![InputEffect::PaintAtCursor]
        } else if context.gates.tool_is_place_point {
            seq![InputEffect::PlacePointAtCursor]
        } else if !context.gizmo_owns_click {
            seq![InputEffect::PickShapeAtCursor]
        } else {
            seq![]
        };
        reset + click
    }

    /// The effects of letting `button` go. Only a short right click that is not
    /// cancelled opens the context menu, and only the primary button ends
    /// gestures.
    pub open spec fn release_effects(
        self,
        stroke: StrokeState,
        button: MouseButton,
        in_viewport: bool,
        cancelled: bool,
        context: PointerContext,
    ) -> Seq<InputEffect> {
        let menu = if !cancelled && button == MouseButton::Right && in_viewport
            && !context.gates.gui_wants_pointer && context.right_travel_is_click
            && context.gates.in_editor {
            seq![InputEffect::OpenContextMenu]
        } else {
            seq![]
        };
        if button != MouseButton::Left {
            menu
        } else {
            menu + seq![InputEffect::EndShapePointDrag, InputEffect::EndLayerPointDrag] + (
            if context.gates.tool == EditorTool::PaintBiome && stroke.last_paint_point is Some {
                seq![InputEffect::EndBiomePaintStroke]
            } else {
                seq![]
            }) + (if context.gates.tool == EditorTool::PaintMask {
                seq![InputEffect::CommitMaskPaintStroke]
            } else {
                seq![]
            })
        }
    }

    /// Nothing is held any more and, for the primary button, the way of the
    /// stroke is forgotten.
    pub open spec fn released(self) -> Interaction {
        Interaction { mouse_pressed: None, mouse_press_cursor: None, ..self }
    }

    fn finish_pointer_release(
        &mut self,
        stroke: &mut StrokeState,
        button: MouseButton,
        in_viewport: bool,
        cancelled: bool,
        context: &PointerContext,
    ) -> (r: Vec<InputEffect>)
        ensures
            r@ == old(self).release_effects(
                *old(stroke),
                button,
                in_viewport,
                cancelled,
                *context,
            ),
            *final(self) == old(self).released(),
            *final(stroke) == (StrokeState {
                last_paint_point: if button == MouseButton::Left {
                    None
                } else {
                    old(stroke).last_paint_point
                },
                ..*old(stroke)
            }),
    {
        let mut effects: Vec<InputEffect> = Vec::new();
        self.mouse_press_cursor = None;
        self.mouse_pressed = None;
        if !cancelled && button == MouseButton::Right && in_viewport
            && !context.gates.gui_wants_pointer && context.right_travel_is_click
            && context.gates.in_editor {
            effects.push(InputEffect::OpenContextMenu);
        }
        if button != MouseButton::Left {
            return effects;
        }
        effects.push(InputEffect::EndShapePointDrag);
        effects.push(InputEffect::EndLayerPointDrag);
        if context.gates.tool == EditorTool::PaintBiome && stroke.last_paint_point.is_some() {
            effects.push(InputEffect::EndBiomePaintStroke);
        }
        stroke.last_paint_point = None;
        if context.gates.tool == EditorTool::PaintMask {
            effects.push(InputEffect::CommitMaskPaintStroke);
        }
        assert(effects@ =~= old(self).release_effects(
            *old(stroke),
            button,
            in_viewport,
            cancelled,
            *context,
        ));
        effects
    }

    /// What follows the release of a button.
    pub open spec fn release_follow_up(button: MouseButton) -> FollowUp {
        if button == MouseButton::Left {
            FollowUp::FinishStroke
        } else {
            FollowUp::Nothing
        }
    }

    /// A button went down or up.
    pub fn apply_pointer_button(
        &mut self,
        stroke: &mut StrokeState,
        state: ElementState,
        button: MouseButton,
        context: &PointerContext,
    ) -> (r: AppliedInput)
        ensures
            r.redraw,
            state == ElementState::Pressed ==> {
                &&& r.effects@ == old(self).button_press_effects(button, *context)
                &&& r.follow_up == FollowUp::Nothing
                &&& *final(self) == (Interaction {
                    mouse_pressed: Some(button),
                    mouse_press_cursor: old(self).last_cursor,
                    gui: old(self).edges_after_button(state, button),
                    ..*old(self)
                })
                &&& *final(stroke) == *old(stroke)
            },
            state == ElementState::Released ==> {
                &&& r.effects@ == old(self).release_effects(
                    *old(stroke),
                    button,
                    context.gates.cursor_in_viewport,
                    false,
                    *context,
                )
                &&& r.follow_up == Self::release_follow_up(button)
                &&& *final(self) == (Interaction {
                    gui: old(self).edges_after_button(state, button),
                    ..old(self).released()
                })
                &&& *final(stroke) == (StrokeState {
                    last_paint_point: if button == MouseButton::Left {
                        None
                    } else {
                        old(stroke).last_paint_point
                    },
                    ..*old(stroke)
                })
            },
    {
        let mut gui = self.gui;
        match (button, state) {
            (MouseButton::Left, ElementState::Pressed) => {
                gui.primary_pressed = true;
            },
            (MouseButton::Left, ElementState::Released) => {
                gui.primary_released = true;
            },
            (MouseButton::Right, ElementState::Pressed) => {
                gui.secondary_pressed = true;
            },
            (MouseButton::Right, ElementState::Released) => {
                gui.secondary_released = true;
            },
            _ => {},
        }
        self.gui = gui;
        let in_viewport = context.gates.cursor_in_viewport;
        if state == ElementState::Released {
            let effects = self.finish_pointer_release(stroke, button, in_viewport, false, context);
            let follow_up = if button == MouseButton::Left {
                FollowUp::FinishStroke
            } else {
                FollowUp::Nothing
            };
            return AppliedInput { redraw: true, effects, follow_up };
        }
        let mut effects: Vec<InputEffect> = Vec::new();
        if button == MouseButton::Right {
            effects.push(InputEffect::ResetRightTravel);
        }
        let gates = PaintGates { modifiers_alt: self.modifiers.alt, ..context.gates };
        let click = button == MouseButton::Left && in_viewport && !self.modifiers.alt
            && !context.gates.gui_wants_pointer;
        if click {
            if gates.viewport_paint_active() {
                effects.push(InputEffect::PaintAtCursor);
            } else if context.gates.tool_is_place_point {
                effects.push(InputEffect::PlacePointAtCursor);
            } else if !context.gizmo_owns_click {
                effects.push(InputEffect::PickShapeAtCursor);
            }
        }
        self.mouse_pressed = Some(button);
        self.mouse_press_cursor = self.last_cursor;
        assert(effects@ =~= old(self).button_press_effects(button, *context));
        AppliedInput { redraw: true, effects, follow_up: FollowUp::Nothing }
    }

    /// The gesture in progress ends without its click, and the camera stops.
    pub open spec fn cancel_effects(self, stroke: StrokeState, context: PointerContext) -> Seq<
        InputEffect,
    > {
        (match self.mouse_pressed {
            Some(button) => self.release_effects(stroke, button, false, true, context),
            None => seq![],
        }).push(InputEffect::ClearCameraKeys)
    }

    pub fn cancel_pointer_gesture(&mut self, stroke: &mut StrokeState, context: &PointerContext) -> (r:
        AppliedInput)
        ensures
            r.redraw,
            r.effects@ == old(self).cancel_effects(*old(stroke), *context),
            r.follow_up == match old(self).mouse_pressed {
                Some(button) => Self::release_follow_up(button),
                None => FollowUp::Nothing,
            },
            final(self).mouse_pressed is None,
            *final(self) == match old(self).mouse_pressed {
                Some(_) => old(self).released(),
                None => *old(self),
            },
            *final(stroke) == (StrokeState {
                last_paint_point: if old(self).mouse_pressed == Some(MouseButton::Left) {
                    None
                } else {
                    old(stroke).last_paint_point
                },
                ..*old(stroke)
            }),
    {
        match self.mouse_pressed {
            Some(button) => {
                let mut effects = self.finish_pointer_release(stroke, button, false, true, context);
                effects.push(InputEffect::ClearCameraKeys);
                let follow_up = if button == MouseButton::Left {
                    FollowUp::FinishStroke
                } else {
                    FollowUp::Nothing
                };
                AppliedInput { redraw: true, effects, follow_up }
            },
            None => {
                let mut effects: Vec<InputEffect> = Vec::new();
                effects.push(InputEffect::ClearCameraKeys);
                assert(effects@ =~= old(self).cancel_effects(*old(stroke), *context));
                AppliedInput { redraw: true, effects, follow_up: FollowUp::Nothing }
            },
        }
    }

    /// A drag of the primary button paints. Once a stroke runs, overlays under
    /// the cursor no longer stop it.
    pub open spec fn paints_on_motion(self, stroke: StrokeState, context: PointerContext) -> bool {
        self.mouse_pressed == Some(MouseButton::Left) && self.gates(context).paints()
            && context.gates.cursor_in_viewport && !self.modifiers.alt && (
        !context.gates.gui_wants_pointer || stroke.sculpt_stroke_active)
    }

    /// The camera owns the pointer.
    pub open spec fn camera_owns_pointer(self, context: PointerContext) -> bool {
        context.gates.in_editor && !context.gates.gui_wants_pointer
            && context.gates.cursor_in_viewport && self.gates(context).flies()
    }

    /// How `button` moves the camera, if it does.
    pub open spec fn camera_motion(self, button: MouseButton) -> Option<CameraMotion> {
        match button {
            MouseButton::Left => Some(
                if self.modifiers.alt {
                    CameraMotion::Orbit
                } else {
                    CameraMotion::Look
                },
            ),
            MouseButton::Right => Some(CameraMotion::PanRight),
            MouseButton::Middle => Some(CameraMotion::Pan),
            _ => None,
        }
    }

    /// The effects of drags that follow the cursor.
    pub open spec fn drag_effects(self, context: PointerContext) -> Seq<InputEffect> {
        let held = self.mouse_pressed == Some(MouseButton::Left);
        (if context.dragging_shape_point && held {
            seq![InputEffect::UpdateShapePointDrag]
        } else {
            seq![]
        }) + (if context.dragging_layer_point && held {
            seq![InputEffect::UpdateLayerPointDrag]
        } else {
            seq![]
        })
    }

    /// The effects of the cursor moving to `to`.
    pub open spec fn motion_effects(
        self,
        stroke: StrokeState,
        to: CursorPosition,
        context: PointerContext,
    ) -> Seq<InputEffect> {
        self.drag_effects(context) + (if self.paints_on_motion(stroke, context) {
            seq![InputEffect::PaintAtCursor]
        } else if self.camera_owns_pointer(context) && context.has_renderer {
            match (self.mouse_pressed, self.last_cursor) {
                (Some(button), Some(from)) => match self.camera_motion(button) {
                    Some(motion) => seq![InputEffect::MoveCamera { motion, from, to }],
                    None => seq![],
                },
                _ => seq![],
            }
        } else {
            seq![]
        })
    }

    /// Whether the motion is worth a frame.
    pub open spec fn motion_redraws(self, stroke: StrokeState, context: PointerContext) -> bool {
        let dragged = context.dragging_layer_point && self.mouse_pressed == Some(MouseButton::Left);
        dragged || if self.paints_on_motion(stroke, context) {
            true
        } else if self.mouse_pressed is Some && self.camera_owns_pointer(context) {
            self.last_cursor is Some && context.has_renderer
        } else {
            (self.gates(context).armed() && context.gates.cursor_in_viewport)
                || context.gates.gui_wants_pointer || !context.gates.in_editor
        }
    }

    fn camera_motion_of(&self, button: MouseButton) -> (r: Option<CameraMotion>)
        ensures
            r == self.camera_motion(button),
    {
        match button {
            MouseButton::Left => if self.modifiers.alt {
                Some(CameraMotion::Orbit)
            } else {
                Some(CameraMotion::Look)
            },
            MouseButton::Right => Some(CameraMotion::PanRight),
            MouseButton::Middle => Some(CameraMotion::Pan),
            _ => None,
        }
    }

    /// The cursor moved.
    pub fn apply_pointer_motion(
        &mut self,
        stroke: &StrokeState,
        to: CursorPosition,
        context: &PointerContext,
    ) -> (r: AppliedInput)
        ensures
            r.redraw == old(self).motion_redraws(*stroke, *context),
            r.effects@ == old(self).motion_effects(*stroke, to, *context),
            r.follow_up == FollowUp::Nothing,
            *final(self) == (Interaction { last_cursor: Some(to), ..*old(self) }),
    {
        let previous = self.last_cursor;
        self.last_cursor = Some(to);
        let mut effects: Vec<InputEffect> = Vec::new();
        let mut redraw = false;
        let held = self.mouse_pressed == Some(MouseButton::Left);
        if context.dragging_shape_point && held {
            effects.push(InputEffect::UpdateShapePointDrag);
        }
        if context.dragging_layer_point && held {
            effects.push(InputEffect::UpdateLayerPointDrag);
            redraw = true;
        }
        assert(effects@ =~= old(self).drag_effects(*context));
        let gates = PaintGates { modifiers_alt: self.modifiers.alt, ..context.gates };
        let painting = held && gates.viewport_paint_active() && gates.cursor_in_viewport
            && !self.modifiers.alt && (!gates.gui_wants_pointer || stroke.sculpt_stroke_active);
        if painting {
            effects.push(InputEffect::PaintAtCursor);
            redraw = true;
        } else if self.mouse_pressed.is_some() && gates.viewport_camera_active() {
            if context.has_renderer {
                if let (Some(button), Some(from)) = (self.mouse_pressed, previous) {
                    if let Some(motion) = self.camera_motion_of(button) {
                        effects.push(InputEffect::MoveCamera { motion, from, to });
                    }
                    redraw = true;
                }
            }
        } else if (gates.viewport_paint_tool_armed() && gates.cursor_in_viewport)
            || gates.gui_wants_pointer || !gates.in_editor {
            redraw = true;
        }
        assert(effects@ =~= old(self).motion_effects(*stroke, to, *context));
        AppliedInput { redraw, effects, follow_up: FollowUp::Nothing }
    }

    /// What the wheel does: scroll the interface, step the brush, or zoom.
    pub open spec fn wheel_effect(self, delta_bits: u32, context: PointerContext) -> Option<
        InputEffect,
    > {
        if context.over_chrome || context.gates.gui_wants_pointer {
            Some(InputEffect::ScrollGui { delta_bits })
        } else if self.gates(context).armed() && !self.modifiers.alt {
            Some(InputEffect::StepBrushRadius { delta_bits })
        } else if self.camera_owns_pointer(context) && context.has_renderer {
            Some(InputEffect::ZoomCamera { delta_bits })
        } else {
            None
        }
    }

    pub fn apply_wheel(&self, delta_bits: u32, context: &PointerContext) -> (r: AppliedInput)
        ensures
            r.redraw == (self.wheel_effect(delta_bits, *context) is Some),
            r.effects@ == match self.wheel_effect(delta_bits, *context) {
                Some(effect) => seq![effect],
                None => Seq::<InputEffect>::empty(),
            },
            r.follow_up == FollowUp::Nothing,
    {
        let gates = PaintGates { modifiers_alt: self.modifiers.alt, ..context.gates };
        let mut effects: Vec<InputEffect> = Vec::new();
        if context.over_chrome || gates.gui_wants_pointer {
            effects.push(InputEffect::ScrollGui { delta_bits });
        } else if gates.viewport_paint_tool_armed() && !self.modifiers.alt {
            effects.push(InputEffect::StepBrushRadius { delta_bits });
        } else if gates.viewport_camera_active() && context.has_renderer {
            effects.push(InputEffect::ZoomCamera { delta_bits });
        }
        let redraw = effects.len() > 0;
        assert(effects@ =~= match self.wheel_effect(delta_bits, *context) {
            Some(effect) => seq![effect],
            None => Seq::<InputEffect>::empty(),
        });
        AppliedInput { redraw, effects, follow_up: FollowUp::Nothing }
    }

    /// The effects of an event.
    pub open spec fn event_effects(
        self,
        stroke: StrokeState,
        event: InputEvent,
        focus: KeyboardFocus,
        context: PointerContext,
    ) -> Seq<InputEffect> {
        match event {
            InputEvent::Keyboard { code: None, .. } => seq![],
            InputEvent::Keyboard { code: Some(code), state } => match state {
                ElementState::Pressed => self.press_effects(code, focus),
                ElementState::Released => seq![InputEffect::SetCameraKey { code, pressed: false }],
            },
            InputEvent::PointerButton { state, button } => match state {
                ElementState::Pressed => self.button_press_effects(button, context),
                ElementState::Released => self.release_effects(
                    stroke,
                    button,
                    context.gates.cursor_in_viewport,
                    false,
                    context,
                ),
            },
            InputEvent::PointerMoved { x_bits, y_bits } => self.motion_effects(
                stroke,
                CursorPosition { x_bits, y_bits },
                context,
            ),
            InputEvent::Wheel { delta_bits } => match self.wheel_effect(delta_bits, context) {
                Some(effect) => seq![effect],
                None => seq![],
            },
            InputEvent::Focused(false) => seq![InputEffect::ClearCameraKeys],
            InputEvent::PointerCancelled(_) => self.cancel_effects(stroke, context),
            InputEvent::Modifiers(_) | InputEvent::Focused(true) | InputEvent::CursorEntered
            | InputEvent::CursorLeft => seq![],
        }
    }

    /// Whether an event is worth a frame.
    pub open spec fn event_redraws(
        self,
        stroke: StrokeState,
        event: InputEvent,
        context: PointerContext,
    ) -> bool {
        match event {
            InputEvent::Keyboard { code, state } => code is Some && state == ElementState::Pressed,
            InputEvent::PointerMoved { .. } => self.motion_redraws(stroke, context),
            InputEvent::Wheel { delta_bits } => self.wheel_effect(delta_bits, context) is Some,
            _ => true,
        }
    }

    /// What is left of an event once its effects are done.
    pub open spec fn event_follow_up(self, event: InputEvent, focus: KeyboardFocus) -> FollowUp {
        match event {
            InputEvent::Keyboard { code: Some(code), state: ElementState::Pressed } => {
                FollowUp::FinishKey { code, wants_chars: focus.takes_chars() }
            },
            InputEvent::PointerButton { state: ElementState::Released, button } => {
                Self::release_follow_up(button)
            },
            InputEvent::PointerCancelled(_) => match self.mouse_pressed {
                Some(button) => Self::release_follow_up(button),
                None => FollowUp::Nothing,
            },
            _ => FollowUp::Nothing,
        }
    }

    /// The interaction state after an event.
    pub open spec fn after_event(self, event: InputEvent) -> Interaction {
        match event {
            InputEvent::Modifiers(modifiers) => Interaction {
                modifiers,
                shift_context: modifiers.shift,
                ..self
            },
            InputEvent::PointerButton { state, button } => match state {
                ElementState::Pressed => Interaction {
                    mouse_pressed: Some(button),
                    mouse_press_cursor: self.last_cursor,
                    gui: self.edges_after_button(state, button),
                    ..self
                },
                ElementState::Released => Interaction {
                    gui: self.edges_after_button(state, button),
                    ..self.released()
                },
            },
            InputEvent::PointerMoved { x_bits, y_bits } => Interaction {
                last_cursor: Some(CursorPosition { x_bits, y_bits }),
                ..self
            },
            InputEvent::PointerCancelled(_) => match self.mouse_pressed {
                Some(_) => self.released(),
                None => self,
            },
            _ => self,
        }
    }

    /// The event ends the way of a stroke of the primary button.
    pub open spec fn ends_way(self, event: InputEvent) -> bool {
        match event {
            InputEvent::PointerButton { state: ElementState::Released, button } => button
                == MouseButton::Left,
            InputEvent::PointerCancelled(_) => self.mouse_pressed == Some(MouseButton::Left),
            _ => false,
        }
    }

    /// Applies one event of a sealed snapshot.
    pub fn apply_input_event(
        &mut self,
        stroke: &mut StrokeState,
        event: InputEvent,
        focus: &KeyboardFocus,
        context: &PointerContext,
    ) -> (r: AppliedInput)
        ensures
            r.redraw == old(self).event_redraws(*old(stroke), event, *context),
            r.effects@ == old(self).event_effects(*old(stroke), event, *focus, *context),
            r.follow_up == old(self).event_follow_up(event, *focus),
            *final(self) == old(self).after_event(event),
            *final(stroke) == (StrokeState {
                last_paint_point: if old(self).ends_way(event) {
                    None
                } else {
                    old(stroke).last_paint_point
                },
                ..*old(stroke)
            }),
    {
        match event {
            InputEvent::Keyboard { code, state } => self.apply_keyboard_input(code, state, focus),
            InputEvent::Modifiers(modifiers) => {
                self.modifiers = modifiers;
                self.shift_context = modifiers.shift;
                AppliedInput { redraw: true, effects: Vec::new(), follow_up: FollowUp::Nothing }
            },
            InputEvent::PointerButton { state, button } => self.apply_pointer_button(
                stroke,
                state,
                button,
                context,
            ),
            InputEvent::PointerMoved { x_bits, y_bits } => self.apply_pointer_motion(
                &*stroke,
                CursorPosition { x_bits, y_bits },
                context,
            ),
            InputEvent::Wheel { delta_bits } => self.apply_wheel(delta_bits, context),
            InputEvent::Focused(focused) => {
                let mut effects: Vec<InputEffect> = Vec::new();
                if !focused {
                    effects.push(InputEffect::ClearCameraKeys);
                }
                assert(effects@ =~= old(self).event_effects(
                    *old(stroke),
                    event,
                    *focus,
                    *context,
                ));
                AppliedInput { redraw: true, effects, follow_up: FollowUp::Nothing }
            },
            InputEvent::CursorEntered | InputEvent::CursorLeft => AppliedInput {
                redraw: true,
                effects: Vec::new(),
                follow_up: FollowUp::Nothing,
            },
            InputEvent::PointerCancelled(_) => self.cancel_pointer_gesture(stroke, context),
        }
    }
}

/// The held keys that fly the camera.
#[derive(Debug, Clone, Copy, PartialEq, Eq, Structural)]
pub struct CameraKeys {
    pub w: bool,
    pub a: bool,
    pub s: bool,
    pub d: bool,
    pub q: bool,
    pub e: bool,
}

impl CameraKeys {
    pub open spec fn held(self) -> bool {
        self.w || self.a || self.s || self.d || self.q || self.e
    }

    pub fn any(&self) -> (r: bool)
        ensures
            r == self.held(),
    {
        self.w || self.a || self.s || self.d || self.q || self.e
    }
}

/// The balance of two opposite keys.
pub open spec fn key_axis(positive: bool, negative: bool) -> i8 {
    if positive == negative {
        0
    } else if positive {
        1
    } else {
        -1i8
    }
}

fn axis(positive: bool, negative: bool) -> (r: i8)
    ensures
        r == key_axis(positive, negative),
{
    if positive == negative {
        0
    } else if positive {
        1
    } else {
        -1
    }
}

/// The longest step of a flight, so that a slow frame does not jump.
pub const MAX_FLY_STEP_NANOS: u128 = 50_000_000;

/// What the held keys do to the camera this frame.
#[derive(Debug, Clone, Copy, PartialEq, Eq, Structural)]
pub enum FlyPlan {
    /// No key is held.
    Rest,
    /// Keys are held but something else has the keyboard or the pointer.
    Gated,
    /// No time has passed.
    Still,
    Move { forward: i8, right: i8, up: i8, step: Duration, fast: bool },
}

/// Decides the flight of this frame. Whatever comes out, the time of the last
/// move becomes `now`, so the first frame after a gate opens does not jump. The
/// camera counts as flying as long as a key is held.
pub fn apply_camera_fly(
    keys: CameraKeys,
    focus: &KeyboardFocus,
    interaction: &Interaction,
    context: &PointerContext,
    last_move: Instant,
    now: Instant,
) -> (r: (bool, FlyPlan))
    ensures
        r.0 == keys.held(),
        r.1 == if !keys.held() {
            FlyPlan::Rest
        } else if !focus.in_editor || focus.takes_chars() || interaction.modifiers.ctrl
            || !interaction.gates(*context).flies() {
            FlyPlan::Gated
        } else if now.nanos_since(last_move) == 0 {
            FlyPlan::Still
        } else {
            FlyPlan::Move {
                forward: key_axis(keys.w, keys.s),
                right: key_axis(keys.d, keys.a),
                up: key_axis(keys.e, keys.q),
                step: Duration {
                    nanos: if now.nanos_since(last_move) <= MAX_FLY_STEP_NANOS {
                        now.nanos_since(last_move) as u128
                    } else {
                        MAX_FLY_STEP_NANOS
                    },
                },
                fast: interaction.modifiers.shift,
            }
        },
{
    if !keys.any() {
        return (false, FlyPlan::Rest);
    }
    let gates = PaintGates { modifiers_alt: interaction.modifiers.alt, ..context.gates };
    if !focus.in_editor || focus.wants_chars() || interaction.modifiers.ctrl
        || !gates.viewport_camera_fly_active() {
        return (true, FlyPlan::Gated);
    }
    let passed: u128 = now.saturating_duration_since(last_move).nanos;
    if passed == 0 {
        return (true, FlyPlan::Still);
    }
    let nanos: u128 = if passed <= MAX_FLY_STEP_NANOS {
        passed
    } else {
        MAX_FLY_STEP_NANOS
    };
    (
        true,
        FlyPlan::Move {
            forward: axis(keys.w, keys.s),
            right: axis(keys.d, keys.a),
            up: axis(keys.e, keys.q),
            step: Duration { nanos },
            fast: interaction.modifiers.shift,
        },
    )
}

/// Losing focus and then the pointer cancels a gesture once: the second
/// cancellation finds nothing held, changes nothing and ends nothing.
pub proof fn a_gesture_is_cancelled_once(
    interaction: Interaction,
    stroke: StrokeState,
    first: crate::input::PointerCancelReason,
    second: crate::input::PointerCancelReason,
    focus: KeyboardFocus,
    context: PointerContext,
)
    ensures
        ({
            let once = interaction.after_event(InputEvent::PointerCancelled(first));
            &&& once.mouse_pressed is None
            &&& once.after_event(InputEvent::PointerCancelled(second)) == once
            &&& once.event_effects(stroke, InputEvent::PointerCancelled(second), focus, context)
                == seq![InputEffect::ClearCameraKeys]
            &&& once.event_follow_up(InputEvent::PointerCancelled(second), focus)
                == FollowUp::Nothing
        }),
{
    let once = interaction.after_event(InputEvent::PointerCancelled(first));
    assert(once.event_effects(stroke, InputEvent::PointerCancelled(second), focus, context)
        =~= seq![InputEffect::ClearCameraKeys]);
}

/// A cancelled gesture is no click: it never opens the context menu.
pub proof fn cancellation_opens_no_menu(
    interaction: Interaction,
    stroke: StrokeState,
    reason: crate::input::PointerCancelReason,
    focus: KeyboardFocus,
    context: PointerContext,
)
    ensures
        !interaction.event_effects(
            stroke,
            InputEvent::PointerCancelled(reason),
            focus,
            context,
        ).contains(InputEffect::OpenContextMenu),
{
}

/// One motion either paints or moves the camera, never both.
pub proof fn motion_paints_or_moves_the_camera(
    interaction: Interaction,
    stroke: StrokeState,
    to: CursorPosition,
    context: PointerContext,
)
    ensures
        interaction.motion_effects(stroke, to, context).contains(InputEffect::PaintAtCursor)
            ==> forall|i: int|
            #![trigger interaction.motion_effects(stroke, to, context)[i]]
            0 <= i < interaction.motion_effects(stroke, to, context).len()
                ==> !(interaction.motion_effects(stroke, to, context)[i] is MoveCamera),
{
}

/// Events change nothing but what they speak of: keys, wheel and focus leave
/// the pressed button and the cursor alone.
pub proof fn keys_and_wheel_leave_the_pointer_alone(interaction: Interaction, event: InputEvent)
    requires
        event is Keyboard || event is Wheel || event is Focused || event is Modifiers,
    ensures
        interaction.after_event(event).mouse_pressed == interaction.mouse_pressed,
        interaction.after_event(event).last_cursor == interaction.last_cursor,
{
}

/// A pressed key moves the camera keys, saves or recalls a bookmark by Control or
/// Alt, and runs its shortcut last; a released key only moves the camera keys. Every
/// press has a follow-up for the editing keys, which knows whether text is typed.
pub proof fn keys_reach_camera_bookmarks_and_shortcuts(
    interaction: Interaction,
    code: KeyCode,
    state: ElementState,
    focus: KeyboardFocus,
    applied: AppliedInput,
)
    requires
        call_ensures(
            Interaction::apply_keyboard_input,
            (&interaction, Some(code), state, &focus),
            applied,
        ),
    ensures
        state is Released ==> applied.effects@.len() == 1 && applied.effects@[0]
            == (InputEffect::SetCameraKey { code, pressed: false }) && !applied.redraw
            && applied.follow_up is Nothing,
        state is Pressed ==> {
            let typing = focus.wants_text_input || focus.quick_add_open
                || focus.command_palette_open || focus.renaming || focus.tool_search_focused;
            let bookmarked = code.bookmark() is Some && focus.in_editor && (
            interaction.modifiers.ctrl || interaction.modifiers.alt);
            &&& applied.redraw
            &&& applied.effects@.first() == (InputEffect::SetCameraKey { code, pressed: true })
            &&& applied.effects@.last() == (InputEffect::DispatchShortcut {
                code,
                modifiers: interaction.modifiers,
                wants_chars: typing,
            })
            &&& applied.follow_up == (FollowUp::FinishKey { code, wants_chars: typing })
            &&& bookmarked ==> applied.effects@.len() == 3
            &&& !bookmarked ==> applied.effects@.len() == 2
            &&& bookmarked && interaction.modifiers.alt ==> applied.effects@[1]
                == InputEffect::RecallCameraBookmark(code.bookmark()->0)
            &&& bookmarked && !interaction.modifiers.alt ==> applied.effects@[1]
                == InputEffect::SaveCameraBookmark(code.bookmark()->0)
        },
{
}

/// The nine digits are the nine bookmarks, in order.
pub proof fn digits_are_bookmarks(code: KeyCode)
    ensures
        code is Digit1 ==> code.bookmark() == Some(0usize),
        code is Digit2 ==> code.bookmark() == Some(1usize),
        code is Digit3 ==> code.bookmark() == Some(2usize),
        code is Digit4 ==> code.bookmark() == Some(3usize),
        code is Digit5 ==> code.bookmark() == Some(4usize),
        code is Digit6 ==> code.bookmark() == Some(5usize),
        code is Digit7 ==> code.bookmark() == Some(6usize),
        code is Digit8 ==> code.bookmark() == Some(7usize),
        code is Digit9 ==> code.bookmark() == Some(8usize),
        code is Backspace || code is Escape || code is Enter || code is NumpadEnter
            ==> code.bookmark() is None,
        code.bookmark() matches Some(index) ==> index < 9,
{
}

/// The editing keys reach what takes them: Backspace a text, Escape the open menu
/// first and then whatever it closes, Enter a text first and then a polygon of three
/// vertices in an active biome. Characters are typed where text is wanted and Control
/// is up, with Shift as it is held.
pub proof fn editing_keys_reach_what_takes_them(
    interaction: &mut Interaction,
    code: KeyCode,
    wants_chars: bool,
    focus: &KeyboardFocus,
    effects: Vec<InputEffect>,
)
    requires
        call_ensures(Interaction::finish_key, (interaction, code, wants_chars, focus), effects),
    ensures
        ({
            let gui = final(interaction).gui;
            let before = old(interaction).gui;
            let enter = code is Enter || code is NumpadEnter;
            let closes = focus.biome_tool is PolygonFill && focus.polygon_vertices >= 3
                && focus.has_active_biome;
            &&& code is Backspace && (focus.wants_text_input || focus.quick_add_open
                || focus.command_palette_open || !focus.tool_search_empty || focus.renaming)
                ==> gui.backspace
            &&& code is Backspace && !focus.wants_text_input && !focus.quick_add_open
                && !focus.command_palette_open && focus.tool_search_empty && !focus.renaming ==> gui
                == before
            &&& code is Escape && focus.context_menu_open ==> gui == before && effects@.contains(
                InputEffect::CloseContextMenu,
            )
            &&& code is Escape && !focus.context_menu_open && (focus.wants_text_input
                || focus.quick_add_open || focus.command_palette_open || focus.renaming
                || focus.project_action_pending || focus.template_picker_open || focus.mask_view)
                ==> gui.escape
            &&& code is Escape && !focus.context_menu_open && !focus.wants_text_input
                && !focus.quick_add_open && !focus.command_palette_open && !focus.renaming
                && !focus.project_action_pending && !focus.template_picker_open && !focus.mask_view
                ==> gui == before
            &&& enter && (focus.wants_text_input || focus.renaming) ==> gui.enter
            &&& enter && !focus.wants_text_input && !focus.renaming ==> gui == before
            &&& enter && !focus.wants_text_input && !focus.renaming && closes
                ==> effects@.contains(InputEffect::CommitBiomePolygon)
            &&& effects@.contains(InputEffect::CommitBiomePolygon) ==> enter && closes
                && !focus.wants_text_input && !focus.renaming
            &&& effects@.contains(InputEffect::CloseContextMenu) ==> code is Escape
                && focus.context_menu_open
            &&& !(code is Backspace) && !(code is Escape) && !enter ==> gui == before
            &&& wants_chars && !old(interaction).modifiers.ctrl ==> effects@.contains(
                InputEffect::PushCharacter { code, shift: old(interaction).modifiers.shift },
            )
            &&& !wants_chars || old(interaction).modifiers.ctrl ==> forall|i: int|
                0 <= i < effects@.len() ==> !(#[trigger] effects@[i] is PushCharacter)
            &&& gui.primary_pressed == before.primary_pressed && gui.primary_released
                == before.primary_released
        }),
        final(interaction).mouse_pressed == old(interaction).mouse_pressed,
{
    if effects@.len() > 0 {
        assert(effects@.contains(effects@[0]));
        assert(effects@.contains(effects@.last()));
    }
}

/// A press is remembered with the cursor under it, and as an edge for the interface.
/// In the viewport, past widgets and without Alt the primary button paints, else
/// places a point, else picks a shape unless the gizmo owns the click; no other
/// button does any of these.
pub proof fn presses_paint_place_or_pick(
    interaction: &mut Interaction,
    stroke: &mut StrokeState,
    button: MouseButton,
    context: &PointerContext,
    applied: AppliedInput,
)
    requires
        call_ensures(
            Interaction::apply_pointer_button,
            (interaction, stroke, ElementState::Pressed, button, context),
            applied,
        ),
    ensures
        final(interaction).mouse_pressed == Some(button),
        final(interaction).mouse_press_cursor == old(interaction).last_cursor,
        button is Left ==> final(interaction).gui.primary_pressed,
        button is Right ==> final(interaction).gui.secondary_pressed && applied.effects@.contains(
            InputEffect::ResetRightTravel,
        ),
        *final(stroke) == *old(stroke),
        applied.redraw,
        ({
            let click = button is Left && context.gates.cursor_in_viewport
                && !old(interaction).modifiers.alt && !context.gates.gui_wants_pointer;
            let paints = old(interaction).gates(*context).paints();
            &&& click && paints ==> applied.effects@ == seq![InputEffect::PaintAtCursor]
            &&& click && !paints && context.gates.tool_is_place_point ==> applied.effects@ == seq![
                InputEffect::PlacePointAtCursor,
            ]
            &&& click && !paints && !context.gates.tool_is_place_point && !context.gizmo_owns_click
                ==> applied.effects@ == seq![InputEffect::PickShapeAtCursor]
            &&& click && !paints && !context.gates.tool_is_place_point && context.gizmo_owns_click
                ==> applied.effects@.len() == 0
            &&& !click && !(button is Right) ==> applied.effects@.len() == 0
            &&& button is Right ==> applied.effects@.len() == 1
        }),
{
    if button is Right {
        assert(applied.effects@[0] is ResetRightTravel);
    }
}

/// Letting a button go ends what it held. The primary button ends both point drags
/// and forgets the way of the stroke, ends a biome stroke that painted and commits a
/// mask stroke; a short right click in the viewport opens the menu, and no other
/// release does.
pub proof fn releases_end_what_was_held(
    interaction: &mut Interaction,
    stroke: &mut StrokeState,
    button: MouseButton,
    context: &PointerContext,
    applied: AppliedInput,
)
    requires
        call_ensures(
            Interaction::apply_pointer_button,
            (interaction, stroke, ElementState::Released, button, context),
            applied,
        ),
    ensures
        final(interaction).mouse_pressed is None,
        final(interaction).mouse_press_cursor is None,
        button is Left ==> final(interaction).gui.primary_released && final(stroke).last_paint_point is None && applied.follow_up is FinishStroke,
        button is Right ==> final(interaction).gui.secondary_released,
        !(button is Left) ==> final(stroke).last_paint_point == old(stroke).last_paint_point
            && applied.follow_up is Nothing,
        final(stroke).sculpt_stroke_active == old(stroke).sculpt_stroke_active,
        button is Left ==> applied.effects@[0] is EndShapePointDrag && applied.effects@[1]
            is EndLayerPointDrag,
        button is Left && context.gates.tool is PaintMask ==> applied.effects@.last()
            is CommitMaskPaintStroke,
        button is Left && context.gates.tool is PaintBiome && old(stroke).last_paint_point is Some
            ==> applied.effects@.last() is EndBiomePaintStroke,
        button is Left && !(context.gates.tool is PaintMask) && !(context.gates.tool is PaintBiome
            && old(stroke).last_paint_point is Some) ==> applied.effects@.len() == 2,
        button is Right ==> {
            let menu = context.gates.cursor_in_viewport && !context.gates.gui_wants_pointer
                && context.right_travel_is_click && context.gates.in_editor;
            &&& menu ==> applied.effects@ == seq![InputEffect::OpenContextMenu]
            &&& !menu ==> applied.effects@.len() == 0
        },
        button is Middle ==> applied.effects@.len() == 0,
{
}

/// A cancelled gesture is released without its click, and the camera keys are
/// cleared in every case.
pub proof fn cancelled_gestures_are_released(
    interaction: &mut Interaction,
    stroke: &mut StrokeState,
    context: &PointerContext,
    applied: AppliedInput,
)
    requires
        call_ensures(
            Interaction::cancel_pointer_gesture,
            (interaction, stroke, context),
            applied,
        ),
    ensures
        final(interaction).mouse_pressed is None,
        applied.effects@.last() is ClearCameraKeys,
        old(interaction).mouse_pressed is None ==> applied.effects@.len() == 1 && *final(interaction) == *old(interaction) && *final(stroke) == *old(stroke),
        old(interaction).mouse_pressed == Some(MouseButton::Left) ==> final(stroke).last_paint_point is None && applied.follow_up is FinishStroke && applied.effects@[0]
            is EndShapePointDrag && applied.effects@[1] is EndLayerPointDrag,
        old(interaction).mouse_pressed == Some(MouseButton::Right) ==> applied.effects@.len() == 1,
{
}

/// A drag of the primary button paints wherever its brush does: in the viewport,
/// without Alt, and past widgets or once a stroke runs. A held button that does not
/// paint moves the camera from where the cursor was to where it is: the primary looks
/// around or, under Alt, orbits; the right and the middle one pan. Dragged points
/// follow the primary button.
pub proof fn motion_paints_or_moves(
    interaction: &mut Interaction,
    stroke: &StrokeState,
    to: CursorPosition,
    context: &PointerContext,
    applied: AppliedInput,
)
    requires
        call_ensures(
            Interaction::apply_pointer_motion,
            (interaction, stroke, to, context),
            applied,
        ),
        !context.dragging_shape_point,
        !context.dragging_layer_point,
    ensures
        final(interaction).last_cursor == Some(to),
        final(interaction).mouse_pressed == old(interaction).mouse_pressed,
        ({
            let pressed = old(interaction).mouse_pressed;
            let alt = old(interaction).modifiers.alt;
            let gates = old(interaction).gates(*context);
            let paints = pressed == Some(MouseButton::Left) && gates.paints()
                && context.gates.cursor_in_viewport && !alt && (!context.gates.gui_wants_pointer
                || stroke.sculpt_stroke_active);
            let camera = context.gates.in_editor && !context.gates.gui_wants_pointer
                && context.gates.cursor_in_viewport && gates.flies() && context.has_renderer;
            &&& paints ==> applied.effects@ == seq![InputEffect::PaintAtCursor] && applied.redraw
            &&& !paints && camera ==> (old(interaction).last_cursor matches Some(from) ==> {
                &&& pressed == Some(MouseButton::Left) && alt ==> applied.effects@ == seq![
                    InputEffect::MoveCamera { motion: CameraMotion::Orbit, from, to },
                ]
                &&& pressed == Some(MouseButton::Left) && !alt ==> applied.effects@ == seq![
                    InputEffect::MoveCamera { motion: CameraMotion::Look, from, to },
                ]
                &&& pressed == Some(MouseButton::Right) ==> applied.effects@ == seq![
                    InputEffect::MoveCamera { motion: CameraMotion::PanRight, from, to },
                ]
                &&& pressed == Some(MouseButton::Middle) ==> applied.effects@ == seq![
                    InputEffect::MoveCamera { motion: CameraMotion::Pan, from, to },
                ]
            })
            &&& !paints && (!camera || pressed is None || old(interaction).last_cursor is None)
                ==> applied.effects@.len() == 0
        }),
{
}

/// Dragged points follow the cursor while the primary button is held.
pub proof fn dragged_points_follow_the_cursor(
    interaction: Interaction,
    stroke: StrokeState,
    to: CursorPosition,
    context: PointerContext,
)
    ensures
        ({
            let effects = interaction.motion_effects(stroke, to, context);
            let held = interaction.mouse_pressed == Some(MouseButton::Left);
            &&& held && context.dragging_shape_point ==> effects[0] is UpdateShapePointDrag
            &&& held && context.dragging_layer_point ==> effects.contains(
                InputEffect::UpdateLayerPointDrag,
            ) && interaction.motion_redraws(stroke, context)
            &&& !held ==> !effects.contains(InputEffect::UpdateShapePointDrag)
                && !effects.contains(InputEffect::UpdateLayerPointDrag)
            &&& !context.dragging_shape_point ==> !effects.contains(
                InputEffect::UpdateShapePointDrag,
            )
            &&& !context.dragging_layer_point ==> !effects.contains(
                InputEffect::UpdateLayerPointDrag,
            )
        }),
{
    let effects = interaction.motion_effects(stroke, to, context);
    let held = interaction.mouse_pressed == Some(MouseButton::Left);
    if held && context.dragging_layer_point {
        if context.dragging_shape_point {
            assert(effects[1] is UpdateLayerPointDrag);
        } else {
            assert(effects[0] is UpdateLayerPointDrag);
        }
    }
}

/// Motion without a button is worth a frame over an armed brush, over widgets and
/// outside the editor, and nowhere else.
pub proof fn hovering_redraws_where_it_shows(
    interaction: Interaction,
    stroke: StrokeState,
    context: PointerContext,
)
    requires
        interaction.mouse_pressed is None,
    ensures
        context.gates.gui_wants_pointer || !context.gates.in_editor ==> interaction.motion_redraws(
            stroke,
            context,
        ),
        context.gates.cursor_in_viewport && interaction.gates(context).armed()
            ==> interaction.motion_redraws(stroke, context),
        !context.gates.gui_wants_pointer && context.gates.in_editor && (
        !context.gates.cursor_in_viewport || !interaction.gates(context).armed())
            ==> !interaction.motion_redraws(stroke, context),
{
}

/// The wheel scrolls the interface over it, steps an armed brush without Alt, and
/// else zooms where the camera owns the pointer.
pub proof fn the_wheel_scrolls_steps_or_zooms(
    interaction: Interaction,
    delta_bits: u32,
    context: PointerContext,
    applied: AppliedInput,
)
    requires
        call_ensures(Interaction::apply_wheel, (&interaction, delta_bits, &context), applied),
    ensures
        ({
            let over = context.over_chrome || context.gates.gui_wants_pointer;
            let brush = interaction.gates(context).armed() && !interaction.modifiers.alt;
            let camera = context.gates.in_editor && context.gates.cursor_in_viewport
                && interaction.gates(context).flies() && context.has_renderer;
            &&& over ==> applied.effects@ == seq![InputEffect::ScrollGui { delta_bits }]
            &&& !over && brush ==> applied.effects@ == seq![
                InputEffect::StepBrushRadius { delta_bits },
            ]
            &&& !over && !brush && camera ==> applied.effects@ == seq![
                InputEffect::ZoomCamera { delta_bits },
            ]
            &&& !over && !brush && !camera ==> applied.effects@.len() == 0
            &&& applied.redraw <==> applied.effects@.len() > 0
        }),
{
}

/// The gates of an event are those of its context under the Alt that is held.
pub proof fn gates_follow_the_held_alt(interaction: Interaction, context: PointerContext)
    ensures
        interaction.gates(context).modifiers_alt == interaction.modifiers.alt,
        interaction.gates(context).tool == context.gates.tool,
        interaction.gates(context).in_editor == context.gates.in_editor,
        interaction.gates(context).cursor_in_viewport == context.gates.cursor_in_viewport,
        interaction.gates(context).gui_wants_pointer == context.gates.gui_wants_pointer,
        interaction.gates(context).paints() == context.gates.paints(),
        interaction.gates(context).armed() == context.gates.armed(),
{
}

/// Events go where they belong: modifiers are taken over, a moved cursor is where it
/// moved, a lost focus clears the camera keys, and everything but unbound keys, idle
/// motion and idle wheel is worth a frame.
pub proof fn events_go_where_they_belong(
    interaction: &mut Interaction,
    stroke: &mut StrokeState,
    event: InputEvent,
    focus: &KeyboardFocus,
    context: &PointerContext,
    applied: AppliedInput,
)
    requires
        call_ensures(
            Interaction::apply_input_event,
            (interaction, stroke, event, focus, context),
            applied,
        ),
    ensures
        event matches InputEvent::Modifiers(modifiers) ==> final(interaction).modifiers == modifiers
            && final(interaction).shift_context == modifiers.shift && applied.effects@.len() == 0
            && applied.redraw,
        !(event is Modifiers) ==> final(interaction).modifiers == old(interaction).modifiers,
        event matches InputEvent::PointerMoved { x_bits, y_bits } ==> final(interaction).last_cursor == Some(CursorPosition { x_bits, y_bits }),
        !(event is PointerMoved) ==> final(interaction).last_cursor == old(interaction).last_cursor,
        event matches InputEvent::Focused(focused) ==> applied.redraw && (focused
            ==> applied.effects@.len() == 0) && (!focused ==> applied.effects@ == seq![
            InputEffect::ClearCameraKeys,
        ]),
        event is CursorEntered || event is CursorLeft ==> applied.effects@.len() == 0
            && applied.redraw,
        event matches InputEvent::PointerButton { state, button } ==> {
            &&& state is Pressed ==> final(interaction).mouse_pressed == Some(button)
            &&& state is Released ==> final(interaction).mouse_pressed is None
            &&& applied.redraw
            &&& state is Released && button is Left ==> final(stroke).last_paint_point is None
                && applied.follow_up is FinishStroke
        },
        event is PointerCancelled ==> final(interaction).mouse_pressed is None && applied.redraw
            && applied.effects@.last() is ClearCameraKeys,
        event matches InputEvent::Keyboard { code, state } ==> (applied.redraw <==> code is Some
            && state is Pressed),
        event is Keyboard || event is Wheel || event is PointerMoved ==> *final(stroke) == *old(stroke),
{
}

/// The camera flies along the keys that are held: opposite keys cancel out, a step is
/// never longer than a twentieth of a second, and Shift flies fast. Typing, Control
/// and brushes hold it back.
pub proof fn the_camera_flies_along_its_keys(
    keys: CameraKeys,
    focus: KeyboardFocus,
    interaction: Interaction,
    context: PointerContext,
    last: Instant,
    now: Instant,
    plan: (bool, FlyPlan),
)
    requires
        call_ensures(
            apply_camera_fly,
            (keys, &focus, &interaction, &context, last, now),
            plan,
        ),
    ensures
        ({
            let held = keys.w || keys.a || keys.s || keys.d || keys.q || keys.e;
            let typing = focus.wants_text_input || focus.quick_add_open
                || focus.command_palette_open || focus.renaming || focus.tool_search_focused;
            let gated = !focus.in_editor || typing || interaction.modifiers.ctrl
                || !interaction.gates(context).flies();
            &&& plan.0 <==> held
            &&& !held ==> plan.1 is Rest
            &&& held && gated ==> plan.1 is Gated
            &&& held && !gated && now.nanos <= last.nanos ==> plan.1 is Still
            &&& held && !gated && last.nanos < now.nanos ==> (plan.1 matches FlyPlan::Move {
                forward,
                right,
                up,
                step,
                fast,
            } && fast == interaction.modifiers.shift && step.nanos <= 50_000_000 && step.nanos > 0
                && (now.nanos - last.nanos <= 50_000_000 ==> step.nanos == now.nanos - last.nanos)
                && (now.nanos - last.nanos >= 50_000_000 ==> step.nanos == 50_000_000) && (keys.w
                && !keys.s ==> forward == 1) && (keys.s && !keys.w ==> forward == -1) && (keys.w
                == keys.s ==> forward == 0) && (keys.d && !keys.a ==> right == 1) && (keys.a
                && !keys.d ==> right == -1) && (keys.a == keys.d ==> right == 0) && (keys.e
                && !keys.q ==> up == 1) && (keys.q && !keys.e ==> up == -1) && (keys.q == keys.e
                ==> up == 0))
        }),
{
}

/// Characters go to whatever takes text: a field, the two palettes, a rename or the
/// search.
pub proof fn text_goes_where_text_is_taken(ui: KeyboardFocus, takes: bool)
    requires
        call_ensures(KeyboardFocus::wants_chars, (&ui,), takes),
    ensures
        ui.wants_text_input ==> takes,
        ui.quick_add_open ==> takes,
        ui.command_palette_open ==> takes,
        ui.renaming ==> takes,
        ui.tool_search_focused ==> takes,
        !ui.wants_text_input && !ui.quick_add_open && !ui.command_palette_open && !ui.renaming
            && !ui.tool_search_focused ==> !takes,
{
}

/// Nothing is pressed at first and the cursor is nowhere.
pub proof fn interaction_starts_at_rest(start: Interaction)
    requires
        call_ensures(Interaction::new, (), start),
    ensures
        !start.modifiers.shift,
        !start.modifiers.alt,
        !start.modifiers.ctrl,
        !start.modifiers.super_key,
        !start.shift_context,
        start.mouse_pressed is None,
        start.mouse_press_cursor is None,
        start.last_cursor is None,
        !start.gui.primary_pressed,
        !start.gui.primary_released,
        !start.gui.secondary_pressed,
        !start.gui.secondary_released,
        !start.gui.backspace,
        !start.gui.escape,
        !start.gui.enter,
{
}

/// A key that is let go lets the camera go and does nothing else; a key that is not
/// known does nothing at all.
pub proof fn released_keys_let_the_camera_go(
    interaction: &mut Interaction,
    stroke: &mut StrokeState,
    code: Option<KeyCode>,
    focus: &KeyboardFocus,
    context: &PointerContext,
    applied: AppliedInput,
)
    requires
        call_ensures(
            Interaction::apply_input_event,
            (
                interaction,
                stroke,
                InputEvent::Keyboard { code, state: ElementState::Released },
                focus,
                context,
            ),
            applied,
        ),
    ensures
        code matches Some(key) ==> applied.effects@ == seq![
            InputEffect::SetCameraKey { code: key, pressed: false },
        ],
        code is None ==> applied.effects@.len() == 0,
        !applied.redraw,
        applied.follow_up is Nothing,
        *final(interaction) == *old(interaction),
        *final(stroke) == *old(stroke),
{
}

/// The way of a stroke ends with the primary button: where it is let go, and where the
/// pointer is lost while it is down. Nothing else ends it.
pub proof fn the_primary_button_ends_the_way(
    interaction: &mut Interaction,
    stroke: &mut StrokeState,
    event: InputEvent,
    focus: &KeyboardFocus,
    context: &PointerContext,
    applied: AppliedInput,
)
    requires
        call_ensures(
            Interaction::apply_input_event,
            (interaction, stroke, event, focus, context),
            applied,
        ),
    ensures
        event == (InputEvent::PointerButton {
            state: ElementState::Released,
            button: MouseButton::Left,
        }) ==> final(stroke).last_paint_point is None,
        event is PointerCancelled && old(interaction).mouse_pressed == Some(MouseButton::Left)
            ==> final(stroke).last_paint_point is None,
        event is PointerCancelled && old(interaction).mouse_pressed != Some(MouseButton::Left)
            ==> *final(stroke) == *old(stroke),
        event matches InputEvent::PointerButton { state, button } ==> (state is Pressed || button
            != MouseButton::Left ==> *final(stroke) == *old(stroke)),
        !(event is PointerButton) && !(event is PointerCancelled) ==> *final(stroke) == *old(stroke),
{
}

/// A window without the focus lets every camera key go, and modifiers are taken as
/// they are reported.
pub proof fn lost_focus_lets_every_key_go(
    interaction: &mut Interaction,
    stroke: &mut StrokeState,
    event: InputEvent,
    focus: &KeyboardFocus,
    context: &PointerContext,
    applied: AppliedInput,
)
    requires
        call_ensures(
            Interaction::apply_input_event,
            (interaction, stroke, event, focus, context),
            applied,
        ),
    ensures
        event == InputEvent::Focused(false) ==> applied.effects@ == seq![
            InputEffect::ClearCameraKeys,
        ],
        event == InputEvent::Focused(true) ==> applied.effects@.len() == 0,
        event is Focused ==> *final(interaction) == *old(interaction),
        event matches InputEvent::Modifiers(modifiers) ==> final(interaction).modifiers == modifiers
            && final(interaction).shift_context == modifiers.shift && applied.effects@.len() == 0,
        event matches InputEvent::PointerMoved { x_bits, y_bits } ==> final(interaction).last_cursor
            == Some(CursorPosition { x_bits, y_bits }) && final(interaction).mouse_pressed == old(interaction).mouse_pressed,
{
}

} // verus!
