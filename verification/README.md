# pinentry

A pinentry program for the Assuan protocol, whose library states and proves what the program decides.

- `src/` is the verified library: how a request line is answered
  (`assuan`), what pinentry commands do to the prompt state (`pinentry`),
  how keys move the focus of the terminal prompt and which texts it shows
  (`prompt`), the text field the PIN is typed into (`secret`), and the string
  helpers they rest on (`text`).
- `app/` holds the programs around it: reading and writing the file
  descriptors, the serving loop, and the two resolvers that ask the user
  for the PIN (a plain terminal line, and a full-screen prompt).
