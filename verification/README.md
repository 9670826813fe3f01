# telegrand

The chat views of a Telegram client, with their state and decisions written
in Verus and proved against their contracts.

- `src/session/chat.rs`: a chat's properties and how the updates that TDLib
  sends about it change them; a property's change is announced exactly when
  its value changes.
- `src/session/content/chat_history.rs`: the view of the chat shown, its
  message entry, and the requests it makes to send a message or save a draft.
- `src/session/content/message_row.rs`: the layout of a message bubble, the
  full name of a sender and the markup shown for a message's content.
- `src/text.rs`: Unicode whitespace trimming.
- `app/`: GObject types and GTK widgets around the library; they show its
  state, announce its changes and carry out its requests through TDLib.
