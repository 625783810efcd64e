# zed_haxe

Haxe language support for the Zed editor, with its decisions verified by Verus.

- `src/` is the verified library:
  - `text.rs`: Unicode white space, trimming, splitting into lines, joining paths.
  - `haxelib.rs`: haxelib version notation and the listing of `haxelib list`.
  - `language_server.rs`: where the language server is installed, and how it is downloaded.
  - `extension.rs`: the extension's state, the steps that work out the command of the
    language server, and its initialization options.
  - `labels.rs`: how completions and symbols are shown.
  - `json.rs`, `http.rs`: JSON values and HTTP requests as the library sees them.
  - `vs.rs`: a client of the Visual Studio extension marketplace.
- `app/` is the extension as Zed loads it: it talks to Zed, the file system and the
  network, and converts between Zed's types and the library's.
- `tests/` exercises the library on concrete inputs.
