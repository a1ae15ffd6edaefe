# neen_desktop_agent

The decision logic of the NeeN desktop agent, with contracts proved by Verus.

- `src/` is the verified library: notification triage (`notification_monitor`),
  input planning for keyboard actions (`system_control`), screen-frame
  scheduling, change detection, cropping and PNG encoding (`screen_capture`),
  voice buffering and WAV conversion (`voice_processor`), configuration state
  (`config`), request planning for the NeeN API (`neen_api`), the assistant's
  command flow (`ai_engine`) and the decisions behind the desktop commands
  (`commands`), over shared lemmas for lists read as keyed maps (`keyed`). Calls into `regex`, `chrono`, `image`, `hound` and `base64`
  stand behind small trusted wrappers whose contracts are documented where
  they are declared.
- `tests/` runs the library on concrete values.
- `app/` is the unverified shell around it: configuration files, HTTP and
  WebSocket traffic, simulated input, screenshots, audio playback and the
  Tauri window and command layer.
