# rstracer

A tracer of a Unix system: it lists processes, open files, sockets and the
packets seen on each network interface, and stores them in a DuckDB
database organised in three layers (bronze: raw rows; silver: cleaned rows;
gold: dimensions and facts), which it keeps refreshed, vacuumed and exported.

## Layout

- `src/` is the verified library (Verus). Every function states what it
  returns in its contract, and Verus proves it:
  - `text`, `num`: the text and number operations the readers are built on;
  - `etc`: the system files (`/etc/hosts`, `/etc/services`, user listings);
  - `lsof`: the field output of `lsof`;
  - `netstat`: sockets and the processes that hold them;
  - `ps`, `journal`: the rows of `ps` (with their start time, read with
    `chrono` in the machine's time zone) and the lines of the system journal,
    cut into their fields (the floating-point fields are read in `app/`);
  - `network`: packets read layer by layer (Ethernet; ARP, IPv4, IPv6; TCP,
    UDP, ICMP; DNS, HTTP, TLS), `pnet` doing the byte-level reading;
  - `pipeline`: the SQL requests of each layer (schema, bronze inserts and
    their merging, silver, gold, system files, vacuum, export, copy) and the
    decisions of the long-running tasks (batches, pacing, schedule);
  - `config`, `pattern`, `clock`: settings, regular expressions (`regex`),
    and the wall clock (`chrono`).
- `app/` runs the commands, reads `/proc` and the files, captures packets
  (`pcap`), talks to the database (`duckdb`), reads the settings (`config`),
  logs (`tracing`), and drives the tasks (`tokio`).
- `tests/` runs the library on concrete inputs.
