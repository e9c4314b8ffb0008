# aqbot_agent_runtime

The decision logic of a desktop assistant's agent runtime, written and proved in Verus.

The library never talks to a database, a process or the file system. Each piece of work that
does is a state machine or a function from what is known to what to do next: it takes the
answer to its last action and gives the next actions. The host performs them and hands the
answers back. What each step does is stated over a mathematical model of the state, and the
laws at the level of whole runs are public proof functions beside the models.

| Module | What it decides |
| --- | --- |
| `admission`, `admission_laws` | the way of a prompt to a running agent, and where it is refused |
| `stream`, `agent_run`, `stream_laws` | one turn of the built-in agent: events, stored texts, the end |
| `transcript`, `tool_input`, `payload` | the text of a turn, previews of tool calls, events |
| `cli`, `cli_turn`, `cli_laws`, `deepseek` | turns of command-line agents |
| `permission`, `permission_laws`, `running`, `cancel` | tool permissions, questions, running agents |
| `profile`, `session`, `registry` | agent profiles, sessions, provider adapters |
| `backup`, `backup_job`, `backup_delete`, `backup_laws`, `export` | making, listing and deleting backups |
| `restore`, `restore_laws`, `schedule` | restoring backups, automatic backups |
| `text`, `time`, `location` | texts, points in time, places in the file system |

`app/` is the ordinary Rust around the library: it performs the actions with the store, the
processes and the user interface of the host application, which it knows through the traits of
`app/host.rs`. `tests/` runs the library with the real outside crates.
