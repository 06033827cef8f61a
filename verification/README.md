# cthulhu_bot

A Discord bot for tabletop sessions of Call of Cthulhu and related games.

## Commands

| Command | What it does |
|:---|:---|
| `/choose` | Picks one of comma-separated choices at random. |
| `/cs` | Creates a character sheet from the eight characteristics 근력, 건강, 크기, 민첩, 외모, 지능, 정신, 교육; a name (이름) and luck (운) may be added. |
| `/op7` | Opposed roll under Call of Cthulhu 7th Edition. |
| `/sk7`, `/skdg`, `/skbrp` | Skill roll under Call of Cthulhu 7th Edition, Delta Green, BRP 2023. |
| `/시트보기`, `/이름설정`, `/특성치수정` | Show the sheet, set its name, change one value. |
| `/내레이션`, `/대사출력` | Post narration, or a line under an NPC's name, through the webhook. |
| `/봇입장`, `/봇퇴장` | Make the bot active or inactive in a channel. |

Not provided: `/roll` (dice expressions), `/skill` and `/sk6` (skill rolls under Call of
Cthulhu 6th Edition). This crate holds no rules for them, so it offers no such command and
claims nothing about them; a `/roll` or `/sk6` invocation is an unknown command.

In a channel where the bot is active, chat from a user whose sheet has a name is reposted
under that name.

## Layout

- `src/` is the library, verified with Verus. The bot's decisions live here, each with a
  contract: how a roll is graded and reported, how a sheet is created, shown and edited,
  which commands exist and how they are declared, which messages are relayed, how the
  channel file and the keys of the sheet file are read and written, how log lines and the
  daily usage report are written. Public proof functions state the laws that hold across
  calls (a saved store loads back unchanged, joining then leaving a channel, the order of
  opposed-roll outcomes, and so on).
- `app/` is the program around it: the Discord client, the event handler, file access and
  the log file. It turns Discord's values into the library's plain values, asks the library
  what to do, and carries it out. Two repetitions stay there: a tied opposed roll is broken
  by calling the library's tie-break round until it decides (the number of rounds has no
  bound), and a narration whose first post is refused is posted again under its fallback
  name.
- `tests/` runs the library on concrete inputs.

Randomness (`rand`) and the clock (`chrono`) are reached from the library through two small
trusted functions whose contracts say only what holds of every outcome: a die lands in its
range, and the sub-second part of the time is below one second. The channel file is read and
written with `serde_json` through two more, whose results are named rather than described.
