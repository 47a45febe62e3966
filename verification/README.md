# boosty_api

A client for the Boosty API whose decision-making core is verified with Verus.

- `src/` — the verified library:
  - `text`: decimal numbers, percent-encoding of path and query segments
    (with the proof that decoding gives the bytes back), query strings;
  - `api_client`: the request path of every endpoint, the classification of
    response statuses, and the pagers that decide, page by page, how posts,
    dialog messages and subscribers are collected (duplicates, empty pages,
    repeated offsets, changed totals and overshoot end the paging with
    `ApiError::Pagination`);
  - `keys`: duplicate detection over item identifiers (a hash set for
    numeric ids, a list for textual ones);
  - `model`, `error`: response models and error types.
- `app/` — the HTTP side: `ApiClient` sends the requests the library names
  with `reqwest`, decodes JSON with `serde`, and feeds the pages back to the
  pagers; it also holds the serde and `thiserror` forms of the library types.
- `tests/` — tests of the library on concrete values.
