# kdeconnect

The decisions of a KDE Connect desktop integration, verified with Verus.

- `src/` — the verified library:
  - `mousepad`: remote-input requests to pointer and key events, keysyms,
    and the acknowledgement packet;
  - `sms`: the SMS packet types and the unread-badge summary;
  - `sftp`: browsing a phone's files — host commands, mount point, the
    mount-table lookup and the step-by-step browse procedure;
  - `theme`: COSMIC theme file locations and the dark-mode preference;
  - `service_varlink`, `varlink_server`: what the two varlink interfaces
    ask the daemon to do and what they answer;
  - `clipboard`: the clipboard packet;
  - `text`: decimal rendering, Unicode white space, trimming, splitting
    into lines and words, Unix path joining.
- `app/` — the I/O around it: serde forms of the packets, the
  RemoteDesktop portal, host processes, channels and theme files.
- `tests/` — tests of the library on concrete values.
