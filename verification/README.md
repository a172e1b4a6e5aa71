# neo-mangal

A terminal manga downloader and Kindle Comic Converter front end, with its
logic verified by Verus.

- `src/` is the verified library: chapter numbers and names, favorites, the
  configuration and its profiles, the scraper source manager, the AniList
  requests and replies, the download and packaging plans (CBZ, PDF, KCC),
  the key handling and navigation of every view and window, and the text
  each window shows. Every public function states its result in `ensures`;
  the laws that tie several functions together are public proof functions
  (`lemma_*`).
- `app/` is the program around it: the terminal, the files, the network,
  the Lua runtime for the scrapers, image decoding and the external tools.
- `tests/` runs the library on concrete values.
