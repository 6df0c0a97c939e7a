//! What the application does in answer to a window event.
use vstd::prelude::*;
use crate::input_instruction::KeyState;

verus! {

/// The window events the application distinguishes, keys of type `K`.
pub enum WindowInput<K> {
    CloseRequested,
    Resized { width: u32, height: u32 },
    RedrawRequested,
    Key { code: K, state: KeyState },
    Focused(bool),
    Other,
}

/// The application's answer to a window event.
pub enum AppAction<K> {
    /// Leave the event loop.
    Exit,
    /// Resize the surface and everything sized after it.
    Resize { width: u32, height: u32 },
    /// Advance the game by a frame and render it.
    Redraw,
    /// Run the binding of a key, if it has one.
    Key { code: K, state: KeyState },
    /// Request a redraw and reconfigure the surface.
    Refresh,
    /// Do nothing.
    Ignore,
}

/// The answer to `input`: nothing happens before the renderer is `ready`;
/// after that, closing exits, resizing resizes, a redraw request draws a
/// frame, a key runs its binding, and regaining focus refreshes the surface.
pub open spec fn action_for<K>(ready: bool, input: WindowInput<K>) -> AppAction<K> {
    if !ready {
        AppAction::Ignore
    } else {
        match input {
            WindowInput::CloseRequested => AppAction::Exit,
            WindowInput::Resized { width, height } => AppAction::Resize { width, height },
            WindowInput::RedrawRequested => AppAction::Redraw,
            WindowInput::Key { code, state } => AppAction::Key { code, state },
            WindowInput::Focused(true) => AppAction::Refresh,
            _ => AppAction::Ignore,
        }
    }
}

/// Once the renderer is ready, every key event, pressed or released, reaches
/// the bindings with its key and state; closing exits; a resize carries its
/// size; a redraw request draws; only regaining focus refreshes. Before the
/// renderer is ready, every event is ignored.
pub proof fn lemma_window_actions<K>(code: K, state: KeyState, width: u32, height: u32, input: WindowInput<K>)
    ensures
        action_for(true, WindowInput::Key { code, state }) == (AppAction::Key { code, state }),
        action_for(true, WindowInput::<K>::Key { code, state: KeyState::Pressed }) == (AppAction::Key {
            code,
            state: KeyState::Pressed,
        }),
        action_for(true, WindowInput::<K>::Key { code, state: KeyState::Released }) == (AppAction::Key {
            code,
            state: KeyState::Released,
        }),
        action_for(true, WindowInput::<K>::CloseRequested) is Exit,
        action_for(true, WindowInput::<K>::Resized { width, height }) == (AppAction::<K>::Resize {
            width,
            height,
        }),
        action_for(true, WindowInput::<K>::RedrawRequested) is Redraw,
        action_for(true, WindowInput::<K>::Focused(true)) is Refresh,
        action_for(true, WindowInput::<K>::Focused(false)) is Ignore,
        action_for(true, WindowInput::<K>::Other) is Ignore,
        action_for(false, input) is Ignore,
{
}

/// Decides the answer to a window event.
pub fn window_action<K>(ready: bool, input: WindowInput<K>) -> (r: AppAction<K>)
    ensures
        r == action_for(ready, input),
        !ready ==> r is Ignore,
        ready && input is CloseRequested ==> r is Exit,
        ready ==> (input matches WindowInput::Resized { width, height } ==> r == (AppAction::<K>::Resize {
            width,
            height,
        })),
        ready && input is RedrawRequested ==> r is Redraw,
        ready ==> (input matches WindowInput::Key { code, state } ==> r == (AppAction::Key { code, state })),
        ready && input == WindowInput::<K>::Focused(true) ==> r is Refresh,
        ready && input == WindowInput::<K>::Focused(false) ==> r is Ignore,
        ready && input is Other ==> r is Ignore,
{
    if !ready {
        return AppAction::Ignore;
    }
    match input {
        WindowInput::CloseRequested => AppAction::Exit,
        WindowInput::Resized { width, height } => AppAction::Resize { width, height },
        WindowInput::RedrawRequested => AppAction::Redraw,
        WindowInput::Key { code, state } => AppAction::Key { code, state },
        WindowInput::Focused(focused) => if focused {
            AppAction::Refresh
        } else {
            AppAction::Ignore
        },
        WindowInput::Other => AppAction::Ignore,
    }
}

} // verus!
