# PinkDown core

The verified core of PinkDown, a split-pane Markdown editor. `src/` holds the
decisions and text the editor computes, each with a Verus contract; `app/`
holds the egui window, threads, network, process and file work around them.

- `update`: GitHub API error messages, token choice, selecting the latest
  semantic-version tag, the update decision and the background checker's
  state; `update::release` holds release URLs and checksum checks, and
  `update::windows` the installer hand-off script and its waiting decisions.
- `export::chromium`: where to look for a Chromium-based browser, its command
  line, and the decisions taken while it prints a PDF.
- `editor`: the unsaved-changes workflow, the update offer that the user
  confirms before anything is downloaded, update status texts and word and
  line counts; `dialog`: the unsaved-changes dialog's choices.
- `settings`, `theme`, `window`: preference paths, palette, fonts, the icon
  and the native window style.
- `text`: Unicode whitespace, trimming, substring search and decimal digits.

Outside crates called from `src/` go through a few trusted wrappers:
`semver` for parsing, ordering and displaying versions, and `sha2` for the
SHA-256 digest.
