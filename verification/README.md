# chap

The library behind chap's terminal user interface, verified with Verus.

- `src/style.rs`: the colours the interface paints with.
- `src/focus.rs`: which pane holds the keyboard focus and the colours of the panes.
- `src/panes.rs`: the line cursor beside the file view and the scrolling of the file and chat views.
- `src/input.rs`: the search box and the prompt box, and what pattern the search box asks for.
- `src/chat.rs`: prompts, the entries of the chat, and how a prompt message is composed and framed.
- `src/content.rs`: how the lines of the file view are styled and cut at search matches, and which chat lines are marked.
- `src/cursor.rs`: where the cursor stands in an input box.
- `src/layout.rs`: how the screen is divided among the panes.
- `src/ui.rs`: the state of the interface and what every key press does to it.

`app/` holds the terminal plumbing: drawing with ratatui, reading keys with
crossterm, and the asynchronous loop with tokio.
