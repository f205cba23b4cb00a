# iceoryx2_forwarding

Verified bookkeeping for publish-subscribe forwarding:

- `src/completion_entry.rs` – completion entries and the wide-entry sidetable
  (a ring of slots addressed by `position % capacity`).
- `src/segment_state.rs` – per-bucket reference counters and
  forwarding-history bitmaps kept by a publisher.
- `src/publisher_mode.rs` – publisher modes and the names they are stored as.
- `src/service_name.rs`, `src/static_config.rs` – service names, forwarding
  target lists and the static configuration of a service.
- `src/completion_channel.rs` – the subscriber's end of the completion channel,
  which records every entry it hands on.
- `src/sample.rs` – the forwarding decisions of a received sample.
- `src/c_api.rs` – result codes and error strings of the C binding.

`app/` holds the serde representations and `Display` texts, which cannot be
attached to the verified types themselves.
