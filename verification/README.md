# hive_agent

The agent layer of the HIVE assistant as a verified Verus library.

- `src/` holds the logic, each function with a contract proved by Verus: the
  tag and request parsers of the native tools, the containment checks, the
  tool registries and the planner's tool list, the wave scheduler of a plan,
  the sub-agent turn loop's decisions, the forge's and the calendar's and the
  contact book's records, the swarm counters, and the answer texts of every
  tool.  Public `law_*` proof functions state the properties that span
  several calls (a created tool is found, a deleted record is gone, a tag
  written is the tag read, an autonomous run never reaches the moderation
  tools).
- `app/` is the runtime around it: the JSON stores under `memory/`, the
  clock, the processes the tools start, and the async executors that hand
  what they read to the library and carry out what it decides.
- `tests/` runs the library on concrete inputs.
